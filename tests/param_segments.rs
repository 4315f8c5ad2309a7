use suspense_core::{ParamSegment, PathSegment, PossibleRouteMatch, StaticSegment, WildcardSegment};

#[test]
fn single_param_match() {
    let path = "/foo";
    let def = ParamSegment("a");
    let matched = def.test(path).expect("couldn't match route");
    assert_eq!(matched.matched(), "/foo");
    assert_eq!(matched.remaining(), "");
    let params = matched.params();
    assert_eq!(params[0], ("a".into(), "foo".into()));
}

#[test]
fn single_param_match_with_trailing_slash() {
    let path = "/foo/";
    let def = ParamSegment("a");
    let matched = def.test(path).expect("couldn't match route");
    assert_eq!(matched.matched(), "/foo");
    assert_eq!(matched.remaining(), "/");
    let params = matched.params();
    assert_eq!(params[0], ("a".into(), "foo".into()));
}

#[test]
fn tuple_of_param_matches() {
    let path = "/foo/bar";
    let def = (ParamSegment("a"), ParamSegment("b"));
    let matched = def.test(path).expect("couldn't match route");
    assert_eq!(matched.matched(), "/foo/bar");
    assert_eq!(matched.remaining(), "");
    let params = matched.params();
    assert_eq!(params[0], ("a".into(), "foo".into()));
    assert_eq!(params[1], ("b".into(), "bar".into()));
}

#[test]
fn splat_should_match_all() {
    let path = "/foo/bar/////";
    let def = (
        StaticSegment("foo"),
        StaticSegment("bar"),
        WildcardSegment("rest"),
    );
    let matched = def.test(path).expect("couldn't match route");
    assert_eq!(matched.matched(), "/foo/bar/////");
    assert_eq!(matched.remaining(), "");
    let params = matched.params();
    assert_eq!(params[0], ("rest".into(), "////".into()));
}

#[test]
fn param_does_not_match_empty_path() {
    assert!(ParamSegment("a").test("").is_none());
}

#[test]
fn param_without_leading_slash() {
    let matched = ParamSegment("id").test("42/edit").expect("match");
    assert_eq!(matched.matched(), "42");
    assert_eq!(matched.remaining(), "/edit");
    let params = matched.params();
    assert_eq!(params, vec![("id".to_string(), "42".to_string())]);
}

#[test]
fn param_multibyte_characters() {
    let matched = ParamSegment("n").test("/héllo/x").expect("match");
    assert_eq!(matched.matched(), "/héllo");
    assert_eq!(matched.remaining(), "/x");
    assert_eq!(matched.params()[0].1, "héllo");
}

#[test]
fn static_segment_requires_whole_segment() {
    assert!(StaticSegment("foo").test("/foobar").is_none());
    assert!(StaticSegment("foo").test("/fo").is_none());
    assert!(StaticSegment("foo").test("/bar").is_none());
    let m = StaticSegment("/foo").test("/foo/bar").expect("match");
    assert_eq!(m.matched(), "/foo");
    assert_eq!(m.remaining(), "/bar");
    assert!(m.params().is_empty());
}

#[test]
fn empty_static_segment_matches_nothing() {
    let m = StaticSegment("").test("/foo").expect("match");
    assert_eq!(m.matched(), "");
    assert_eq!(m.remaining(), "/foo");
}

#[test]
fn wildcard_matches_empty_path() {
    let m = WildcardSegment("rest").test("").expect("match");
    assert_eq!(m.matched(), "");
    assert_eq!(m.remaining(), "");
    assert_eq!(m.params()[0].1, "");
}

#[test]
fn tuple_fails_when_second_fails() {
    let def = (StaticSegment("foo"), StaticSegment("baz"));
    assert!(def.test("/foo/bar").is_none());
}

#[test]
fn generate_path_lists_segments() {
    let def = (StaticSegment("foo"), ParamSegment("id"), WildcardSegment("rest"));
    let mut path = vec![PathSegment::Unit];
    def.generate_path(&mut path);
    assert_eq!(
        path,
        vec![
            PathSegment::Unit,
            PathSegment::Static("foo"),
            PathSegment::Param("id"),
            PathSegment::Splat("rest"),
        ]
    );
}
