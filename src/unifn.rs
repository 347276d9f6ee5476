//! The uniform invoker: calling a handler of any arity with its arguments
//! gathered in one tuple.
use vstd::prelude::*;

verus! {

/// Uniform function
///
/// A handler that takes its arguments as one tuple `Args` and returns `Res`.
pub trait UniFn<Args, Res> {
    /// The handler may be called with `args`.
    spec fn accepts(&self, args: Args) -> bool;

    /// `r` is a result the handler may give for `args`.
    spec fn produces(&self, args: Args, r: Res) -> bool;

    /// Call the function
    fn call(&self, args: Args) -> (r: Res)
        requires
            self.accepts(args),
        ensures
            self.produces(args, r),
    ;
}

impl<T, Res> UniFn<(), Res> for T where T: Fn() -> Res {
    open spec fn accepts(&self, args: ()) -> bool {
        call_requires(*self, ())
    }

    open spec fn produces(&self, args: (), r: Res) -> bool {
        call_ensures(*self, (), r)
    }

    fn call(&self, args: ()) -> (r: Res) {
        (self)()
    }
}

impl<T, P0, Res> UniFn<(P0,), Res> for T where T: Fn(P0) -> Res {
    open spec fn accepts(&self, args: (P0,)) -> bool {
        call_requires(*self, (args.0,))
    }

    open spec fn produces(&self, args: (P0,), r: Res) -> bool {
        call_ensures(*self, (args.0,), r)
    }

    fn call(&self, args: (P0,)) -> (r: Res) {
        (self)(args.0)
    }
}

impl<T, P0, P1, Res> UniFn<(P0, P1), Res> for T where T: Fn(P0, P1) -> Res {
    open spec fn accepts(&self, args: (P0, P1)) -> bool {
        call_requires(*self, (args.0, args.1))
    }

    open spec fn produces(&self, args: (P0, P1), r: Res) -> bool {
        call_ensures(*self, (args.0, args.1), r)
    }

    fn call(&self, args: (P0, P1)) -> (r: Res) {
        (self)(args.0, args.1)
    }
}

impl<T, P0, P1, P2, Res> UniFn<(P0, P1, P2), Res> for T where T: Fn(P0, P1, P2) -> Res {
    open spec fn accepts(&self, args: (P0, P1, P2)) -> bool {
        call_requires(*self, (args.0, args.1, args.2))
    }

    open spec fn produces(&self, args: (P0, P1, P2), r: Res) -> bool {
        call_ensures(*self, (args.0, args.1, args.2), r)
    }

    fn call(&self, args: (P0, P1, P2)) -> (r: Res) {
        (self)(args.0, args.1, args.2)
    }
}

impl<T, P0, P1, P2, P3, Res> UniFn<(P0, P1, P2, P3), Res> for T where T: Fn(P0, P1, P2, P3) -> Res {
    open spec fn accepts(&self, args: (P0, P1, P2, P3)) -> bool {
        call_requires(*self, (args.0, args.1, args.2, args.3))
    }

    open spec fn produces(&self, args: (P0, P1, P2, P3), r: Res) -> bool {
        call_ensures(*self, (args.0, args.1, args.2, args.3), r)
    }

    fn call(&self, args: (P0, P1, P2, P3)) -> (r: Res) {
        (self)(args.0, args.1, args.2, args.3)
    }
}

impl<T, P0, P1, P2, P3, P4, Res> UniFn<(P0, P1, P2, P3, P4), Res> for T where T: Fn(P0, P1, P2, P3, P4) -> Res {
    open spec fn accepts(&self, args: (P0, P1, P2, P3, P4)) -> bool {
        call_requires(*self, (args.0, args.1, args.2, args.3, args.4))
    }

    open spec fn produces(&self, args: (P0, P1, P2, P3, P4), r: Res) -> bool {
        call_ensures(*self, (args.0, args.1, args.2, args.3, args.4), r)
    }

    fn call(&self, args: (P0, P1, P2, P3, P4)) -> (r: Res) {
        (self)(args.0, args.1, args.2, args.3, args.4)
    }
}

impl<T, P0, P1, P2, P3, P4, P5, Res> UniFn<(P0, P1, P2, P3, P4, P5), Res> for T where T: Fn(P0, P1, P2, P3, P4, P5) -> Res {
    open spec fn accepts(&self, args: (P0, P1, P2, P3, P4, P5)) -> bool {
        call_requires(*self, (args.0, args.1, args.2, args.3, args.4, args.5))
    }

    open spec fn produces(&self, args: (P0, P1, P2, P3, P4, P5), r: Res) -> bool {
        call_ensures(*self, (args.0, args.1, args.2, args.3, args.4, args.5), r)
    }

    fn call(&self, args: (P0, P1, P2, P3, P4, P5)) -> (r: Res) {
        (self)(args.0, args.1, args.2, args.3, args.4, args.5)
    }
}

impl<T, P0, P1, P2, P3, P4, P5, P6, Res> UniFn<(P0, P1, P2, P3, P4, P5, P6), Res> for T where T: Fn(P0, P1, P2, P3, P4, P5, P6) -> Res {
    open spec fn accepts(&self, args: (P0, P1, P2, P3, P4, P5, P6)) -> bool {
        call_requires(*self, (args.0, args.1, args.2, args.3, args.4, args.5, args.6))
    }

    open spec fn produces(&self, args: (P0, P1, P2, P3, P4, P5, P6), r: Res) -> bool {
        call_ensures(*self, (args.0, args.1, args.2, args.3, args.4, args.5, args.6), r)
    }

    fn call(&self, args: (P0, P1, P2, P3, P4, P5, P6)) -> (r: Res) {
        (self)(args.0, args.1, args.2, args.3, args.4, args.5, args.6)
    }
}

} // verus!
