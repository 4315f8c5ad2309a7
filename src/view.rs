use vstd::prelude::*;
use vstd::view::View as ModelView;

verus! {

/// A value that is ready to be rendered as part of a view tree.
pub struct View<T>(T);

impl<T> View<T> {
    /// The wrapped value, for use in contracts.
    pub closed spec fn spec_inner(&self) -> T {
        self.0
    }

    /// Gives back the wrapped value.
    pub fn into_inner(self) -> (r: T)
        ensures
            r == self.spec_inner(),
    {
        self.0
    }
}

/// Anything that can be placed into a view tree.
pub trait IntoView where Self: Sized {
    fn into_view(self) -> (r: View<Self>)
        ensures
            r.spec_inner() == self,
    ;
}

impl<T> IntoView for T {
    fn into_view(self) -> (r: View<Self>) {
        View(self)
    }
}

/// A collection whose items can be turned into a list of views.
pub trait CollectView {
    type View: IntoView;

    /// The items, in the order in which they are collected.
    spec fn spec_items(&self) -> Seq<Self::View>;

    fn collect_view(self) -> (r: Vec<Self::View>)
        ensures
            r@ == self.spec_items(),
    ;
}

impl<V> CollectView for Vec<V> {
    type View = V;

    open spec fn spec_items(&self) -> Seq<V> {
        self@
    }

    fn collect_view(self) -> (r: Vec<V>) {
        self
    }
}

/// Defers building a subtree until the moment it is rendered, so that
/// asynchronous reads inside it are never seen by an enclosing boundary.
pub struct Unsuspend<F>(F);

impl<F> Unsuspend<F> {
    /// The deferred construction function, for use in contracts.
    pub closed spec fn spec_fun(&self) -> F {
        self.0
    }

    /// Wraps `fun` without calling it.
    pub fn new(fun: F) -> (r: Self)
        ensures
            r.spec_fun() == fun,
    {
        Unsuspend(fun)
    }

    /// Calls the deferred function exactly once, at render time.
    pub fn run<T>(self) -> (r: T)
        where
            F: FnOnce() -> T,
        requires
            self.spec_fun().requires(()),
        ensures
            self.spec_fun().ensures((), r),
    {
        (self.0)()
    }
}

} // verus!
