use suspense_core::{CollectView, IntoView, View};

#[test]
fn into_view_round_trip() {
    let v: View<&str> = "hello".into_view();
    assert_eq!(v.into_inner(), "hello");
}

#[test]
fn collect_view_keeps_order() {
    let items = vec![1, 2, 3];
    assert_eq!(items.collect_view(), vec![1, 2, 3]);
}
