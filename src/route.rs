use vstd::prelude::*;

verus! {

/// A piece of a generated route path.
#[derive(Clone, Copy, Debug, PartialEq, Eq)]
pub enum PathSegment {
    Unit,
    Static(&'static str),
    Param(&'static str),
    Splat(&'static str),
}

/// Captured parameters as (name, value) character sequences.
pub open spec fn params_view(v: Seq<(String, String)>) -> Seq<(Seq<char>, Seq<char>)> {
    v.map_values(|p: (String, String)| (p.0@, p.1@))
}

/// The length of a leading `/` of `path`: 1 if there is one, else 0.
pub open spec fn lead_len(path: Seq<char>) -> int {
    if path.len() > 0 && path[0] == '/' {
        1
    } else {
        0
    }
}

/// The position of the first `/` at or after `i`, or the end of `path`.
pub open spec fn segment_end(path: Seq<char>, i: int) -> int
    decreases path.len() - i,
{
    if i < 0 || i >= path.len() || path[i] == '/' {
        i
    } else {
        segment_end(path, i + 1)
    }
}

/// A successful match of a prefix of a path.
pub struct PartialPathMatch<'a> {
    remaining: &'a str,
    params: Vec<(String, String)>,
    matched: &'a str,
}

impl<'a> PartialPathMatch<'a> {
    pub closed spec fn spec_remaining(&self) -> Seq<char> {
        self.remaining@
    }

    pub closed spec fn spec_matched(&self) -> Seq<char> {
        self.matched@
    }

    pub closed spec fn spec_params(&self) -> Seq<(Seq<char>, Seq<char>)> {
        params_view(self.params@)
    }

    pub fn new(remaining: &'a str, params: Vec<(String, String)>, matched: &'a str) -> (r: Self)
        ensures
            r.spec_remaining() == remaining@,
            r.spec_params() == params_view(params@),
            r.spec_matched() == matched@,
    {
        PartialPathMatch { remaining, params, matched }
    }

    /// The matched prefix.
    pub fn matched(&self) -> (r: &'a str)
        ensures
            r@ == self.spec_matched(),
    {
        self.matched
    }

    /// What follows the matched prefix.
    pub fn remaining(&self) -> (r: &'a str)
        ensures
            r@ == self.spec_remaining(),
    {
        self.remaining
    }

    /// The captured parameters, in the order of the segments.
    pub fn params(self) -> (r: Vec<(String, String)>)
        ensures
            params_view(r@) == self.spec_params(),
    {
        self.params
    }
}

/// Joins a match of `path` with a match of what it left over.
fn join<'a>(path: &'a str, first: PartialPathMatch<'a>, second: PartialPathMatch<'a>) -> (r: PartialPathMatch<'a>)
    requires
        path@ == first.spec_matched() + first.spec_remaining(),
        first.spec_remaining() == second.spec_matched() + second.spec_remaining(),
    ensures
        r.spec_matched() == path@.take((first.spec_matched().len() + second.spec_matched().len()) as int),
        r.spec_remaining() == second.spec_remaining(),
        r.spec_params() == first.spec_params() + second.spec_params(),
{
    let path_len = path.unicode_len();
    let n1 = first.matched.unicode_len();
    let n2 = second.matched.unicode_len();
    assert(n1 + n2 <= path_len);
    let matched = path.substring_char(0, n1 + n2);
    let mut params = first.params;
    let mut more = second.params;
    let ghost p1 = params@;
    let ghost p2 = more@;
    params.append(&mut more);
    assert(params_view(p1 + p2) =~= params_view(p1) + params_view(p2));
    assert(path@.take((n1 + n2) as int) =~= path@.subrange(0, (n1 + n2) as int));
    PartialPathMatch { remaining: second.remaining, params, matched }
}

/// A route piece that may match a prefix of a path.
pub trait PossibleRouteMatch {
    /// The number of characters matched at the start of `path` and the
    /// parameters captured, or `None` where the piece does not match.
    spec fn spec_match(&self, path: Seq<char>) -> Option<(int, Seq<(Seq<char>, Seq<char>)>)>;

    /// The segments this piece contributes to a generated path.
    spec fn spec_path(&self) -> Seq<PathSegment>;

    fn test<'a>(&self, path: &'a str) -> (r: Option<PartialPathMatch<'a>>)
        ensures
            match self.spec_match(path@) {
                None => r is None,
                Some(m) => {
                    &&& r is Some
                    &&& 0 <= m.0 <= path@.len()
                    &&& r->0.spec_matched() == path@.take(m.0)
                    &&& r->0.spec_remaining() == path@.skip(m.0)
                    &&& r->0.spec_params() == m.1
                },
            },
    ;

    fn generate_path(&self, path: &mut Vec<PathSegment>)
        ensures
            final(path)@ == old(path)@ + self.spec_path(),
    ;
}

/// Matches one path segment, up to the next `/`, as a named parameter.
#[derive(Copy, Clone, Debug, PartialEq, Eq, Hash)]
pub struct ParamSegment(pub &'static str);

impl PossibleRouteMatch for ParamSegment {
    /// An optional leading `/` and then everything up to the next `/`; the
    /// parameter is the part after the leading `/`. An empty path does not
    /// match.
    open spec fn spec_match(&self, path: Seq<char>) -> Option<(int, Seq<(Seq<char>, Seq<char>)>)> {
        let s = lead_len(path);
        let e = segment_end(path, s);
        if e == 0 {
            None
        } else {
            Some((e, seq![(self.0@, path.subrange(s, e))]))
        }
    }

    open spec fn spec_path(&self) -> Seq<PathSegment> {
        seq![PathSegment::Param(self.0)]
    }

    fn test<'a>(&self, path: &'a str) -> (r: Option<PartialPathMatch<'a>>) {
        let len = path.unicode_len();
        let start: usize = if len > 0 && path.get_char(0) == '/' {
            1
        } else {
            0
        };
        let mut end: usize = start;
        while end < len && path.get_char(end) != '/'
            invariant
                start <= end <= len,
                len == path@.len(),
                start as int == lead_len(path@),
                segment_end(path@, start as int) == segment_end(path@, end as int),
            decreases len - end,
        {
            end = end + 1;
        }
        if end == 0 {
            return None;
        }
        let matched = path.substring_char(0, end);
        let remaining = path.substring_char(end, len);
        let value = path.substring_char(start, end).to_owned();
        let name = self.0.to_owned();
        let mut params = Vec::new();
        params.push((name, value));
        assert(params_view(params@) =~= seq![(self.0@, path@.subrange(start as int, end as int))]);
        assert(path@.take(end as int) =~= path@.subrange(0, end as int));
        assert(path@.skip(end as int) =~= path@.subrange(end as int, len as int));
        Some(PartialPathMatch { remaining, params, matched })
    }

    fn generate_path(&self, path: &mut Vec<PathSegment>) {
        path.push(PathSegment::Param(self.0));
        assert(path@ =~= old(path)@ + self.spec_path());
    }
}

/// Matches all the rest of a path as a named parameter.
#[derive(Copy, Clone, Debug, PartialEq, Eq, Hash)]
pub struct WildcardSegment(pub &'static str);

impl PossibleRouteMatch for WildcardSegment {
    /// The whole path; the parameter is what follows a leading `/`.
    open spec fn spec_match(&self, path: Seq<char>) -> Option<(int, Seq<(Seq<char>, Seq<char>)>)> {
        Some((path.len() as int, seq![(self.0@, path.subrange(lead_len(path), path.len() as int))]))
    }

    open spec fn spec_path(&self) -> Seq<PathSegment> {
        seq![PathSegment::Splat(self.0)]
    }

    fn test<'a>(&self, path: &'a str) -> (r: Option<PartialPathMatch<'a>>) {
        let len = path.unicode_len();
        let start: usize = if len > 0 && path.get_char(0) == '/' {
            1
        } else {
            0
        };
        let matched = path.substring_char(0, len);
        let remaining = path.substring_char(len, len);
        let value = path.substring_char(start, len).to_owned();
        let name = self.0.to_owned();
        let mut params = Vec::new();
        params.push((name, value));
        assert(params_view(params@) =~= seq![(self.0@, path@.subrange(start as int, len as int))]);
        assert(path@.take(len as int) =~= path@.subrange(0, len as int));
        assert(path@.skip(len as int) =~= path@.subrange(len as int, len as int));
        Some(PartialPathMatch { remaining, params, matched })
    }

    fn generate_path(&self, path: &mut Vec<PathSegment>) {
        path.push(PathSegment::Splat(self.0));
        assert(path@ =~= old(path)@ + self.spec_path());
    }
}

/// Matches a fixed segment text, ending at a `/` or at the end of the path.
#[derive(Copy, Clone, Debug, PartialEq, Eq, Hash)]
pub struct StaticSegment(pub &'static str);

impl PossibleRouteMatch for StaticSegment {
    /// With `t` the segment text without a leading `/`: an empty `t` matches
    /// nothing, successfully; otherwise an optional leading `/` followed by
    /// `t`, then a `/` or the end of the path.
    open spec fn spec_match(&self, path: Seq<char>) -> Option<(int, Seq<(Seq<char>, Seq<char>)>)> {
        let t = self.0@.skip(lead_len(self.0@));
        let s = lead_len(path);
        let e = s + t.len();
        if t.len() == 0 {
            Some((0, Seq::empty()))
        } else if e <= path.len() && path.subrange(s, e) == t && (e == path.len() || path[e] == '/') {
            Some((e, Seq::empty()))
        } else {
            None
        }
    }

    open spec fn spec_path(&self) -> Seq<PathSegment> {
        seq![PathSegment::Static(self.0)]
    }

    fn test<'a>(&self, path: &'a str) -> (r: Option<PartialPathMatch<'a>>) {
        let tlen = self.0.unicode_len();
        let tstart: usize = if tlen > 0 && self.0.get_char(0) == '/' {
            1
        } else {
            0
        };
        let n = tlen - tstart;
        let ghost t = self.0@.skip(tstart as int);
        let len = path.unicode_len();
        if n == 0 {
            let params: Vec<(String, String)> = Vec::new();
            assert(params_view(params@) =~= Seq::empty());
            assert(path@.take(0) =~= path@.subrange(0, 0));
            assert(path@.skip(0) =~= path@);
            return Some(PartialPathMatch { remaining: path, params, matched: path.substring_char(0, 0) });
        }
        let start: usize = if len > 0 && path.get_char(0) == '/' {
            1
        } else {
            0
        };
        if n > len - start {
            return None;
        }
        let end = start + n;
        let mut k: usize = 0;
        while k < n
            invariant
                k <= n,
                n == t.len(),
                end == start + n,
                end <= len,
                len == path@.len(),
                tlen == self.0@.len(),
                t == self.0@.skip(tstart as int),
                tstart + n == tlen,
                start as int == lead_len(path@),
                tstart as int == lead_len(self.0@),
                forall|j: int| 0 <= j < k ==> path@[start + j] == t[j],
            decreases n - k,
        {
            if path.get_char(start + k) != self.0.get_char(tstart + k) {
                assert(path@.subrange(start as int, end as int)[k as int] != t[k as int]);
                return None;
            }
            k = k + 1;
        }
        assert(path@.subrange(start as int, end as int) =~= t);
        if end < len && path.get_char(end) != '/' {
            return None;
        }
        let params: Vec<(String, String)> = Vec::new();
        assert(params_view(params@) =~= Seq::empty());
        assert(path@.take(end as int) =~= path@.subrange(0, end as int));
        assert(path@.skip(end as int) =~= path@.subrange(end as int, len as int));
        Some(PartialPathMatch {
            remaining: path.substring_char(end, len),
            params,
            matched: path.substring_char(0, end),
        })
    }

    fn generate_path(&self, path: &mut Vec<PathSegment>) {
        path.push(PathSegment::Static(self.0));
        assert(path@ =~= old(path)@ + self.spec_path());
    }
}


/// Two pieces matched one after the other.
impl<A: PossibleRouteMatch, B: PossibleRouteMatch> PossibleRouteMatch for (A, B) {
    open spec fn spec_match(&self, path: Seq<char>) -> Option<(int, Seq<(Seq<char>, Seq<char>)>)> {
        match self.0.spec_match(path) {
            None => None,
            Some(m1) => match self.1.spec_match(path.skip(m1.0)) {
                None => None,
                Some(m2) => Some((m1.0 + m2.0, m1.1 + m2.1)),
            },
        }
    }

    open spec fn spec_path(&self) -> Seq<PathSegment> {
        self.0.spec_path() + self.1.spec_path()
    }

    fn test<'a>(&self, path: &'a str) -> (r: Option<PartialPathMatch<'a>>) {
        match self.0.test(path) {
            None => None,
            Some(m1) => {
                let rest = m1.remaining;
                proof {
                    assert(path@ =~= m1.matched@ + m1.remaining@);
                }
                match self.1.test(rest) {
                    None => None,
                    Some(m2) => {
                        proof {
                            assert(rest@ =~= m2.matched@ + m2.remaining@);
                            let n1 = m1.matched@.len() as int;
                            let n2 = m2.matched@.len() as int;
                            assert(path@.skip(n1).skip(n2) =~= path@.skip(n1 + n2));
                        }
                        Some(join(path, m1, m2))
                    },
                }
            },
        }
    }

    fn generate_path(&self, path: &mut Vec<PathSegment>) {
        self.0.generate_path(path);
        self.1.generate_path(path);
        assert(path@ =~= old(path)@ + self.spec_path());
    }
}

/// Three pieces matched one after the other.
impl<A: PossibleRouteMatch, B: PossibleRouteMatch, C: PossibleRouteMatch> PossibleRouteMatch for (A, B, C) {
    open spec fn spec_match(&self, path: Seq<char>) -> Option<(int, Seq<(Seq<char>, Seq<char>)>)> {
        match self.0.spec_match(path) {
            None => None,
            Some(m1) => match self.1.spec_match(path.skip(m1.0)) {
                None => None,
                Some(m2) => match self.2.spec_match(path.skip(m1.0).skip(m2.0)) {
                    None => None,
                    Some(m3) => Some((m1.0 + m2.0 + m3.0, m1.1 + m2.1 + m3.1)),
                },
            },
        }
    }

    open spec fn spec_path(&self) -> Seq<PathSegment> {
        self.0.spec_path() + self.1.spec_path() + self.2.spec_path()
    }

    fn test<'a>(&self, path: &'a str) -> (r: Option<PartialPathMatch<'a>>) {
        match self.0.test(path) {
            None => None,
            Some(m1) => {
                let rest1 = m1.remaining;
                proof {
                    assert(path@ =~= m1.matched@ + m1.remaining@);
                }
                match self.1.test(rest1) {
                    None => None,
                    Some(m2) => {
                        let rest2 = m2.remaining;
                        proof {
                            assert(rest1@ =~= m2.matched@ + m2.remaining@);
                        }
                        match self.2.test(rest2) {
                            None => None,
                            Some(m3) => {
                                proof {
                                    assert(rest2@ =~= m3.matched@ + m3.remaining@);
                                    let n1 = m1.matched@.len() as int;
                                    let n2 = m2.matched@.len() as int;
                                    let n3 = m3.matched@.len() as int;
                                    assert(path@.skip(n1).skip(n2).skip(n3) =~= path@.skip(n1 + n2 + n3));
                                }
                                let tail = join(rest1, m2, m3);
                                proof {
                                    let n2 = m2.matched@.len() as int;
                                    let n3 = m3.matched@.len() as int;
                                    assert(rest1@.skip(n2).skip(n3) =~= rest1@.skip(n2 + n3));
                                    assert(rest1@ =~= tail.spec_matched() + tail.spec_remaining());
                                }
                                let r = join(path, m1, tail);
                                proof {
                                    let p1 = params_view(m1.params@);
                                    let p2 = params_view(m2.params@);
                                    let p3 = params_view(m3.params@);
                                    assert(p1 + (p2 + p3) =~= p1 + p2 + p3);
                                }
                                Some(r)
                            },
                        }
                    },
                }
            },
        }
    }

    fn generate_path(&self, path: &mut Vec<PathSegment>) {
        self.0.generate_path(path);
        self.1.generate_path(path);
        self.2.generate_path(path);
        assert(path@ =~= old(path)@ + self.spec_path());
    }
}

} // verus!
