//! The handler wrapper: a handler bound to the codec, and the type-erased
//! callable of shape `(word slice) -> signed word` built from it.
use crate::codec::{FromArgs, ToIsize};
use crate::unifn::UniFn;
use vstd::prelude::*;

verus! {

/// The handler `func` may be called with the words `args`: they are enough
/// for its arguments and the decoded arguments meet its precondition.
pub open spec fn handler_accepts<F: UniFn<Args, Res>, Args: FromArgs, Res: ToIsize>(
    func: F,
    args: Seq<usize>,
) -> bool {
    &&& args.len() >= Args::arity()
    &&& func.accepts(Args::decode(args))
}

/// `w` is the encoding of a result that `func` may give for the arguments
/// decoded from `args`.
pub open spec fn handler_yields<F: UniFn<Args, Res>, Args: FromArgs, Res: ToIsize>(
    func: F,
    args: Seq<usize>,
    w: isize,
) -> bool {
    exists|res: Res| #[trigger] func.produces(Args::decode(args), res) && w == res.isize_of()
}

/// The uniform calling shape: a word slice in, one signed word out.
pub trait WordFn {
    /// The callable may be invoked with `args`.
    spec fn accepts(&self, args: Seq<usize>) -> bool;

    /// `w` is a word the callable may give for `args`.
    spec fn yields(&self, args: Seq<usize>, w: isize) -> bool;

    /// Decode `args`, run the callable and encode its result.
    fn invoke(&self, args: &[usize]) -> (w: isize)
        requires
            self.accepts(args@),
        ensures
            self.yields(args@, w),
    ;
}

/// A wrapper of uniform function
pub struct SysCallHandler<F, Args, Res> {
    func: F,
    _args: core::marker::PhantomData<Args>,
    _res: core::marker::PhantomData<Res>,
}

impl<F, Args, Res> SysCallHandler<F, Args, Res> where F: UniFn<Args, Res> {
    /// The wrapped handler.
    pub closed spec fn func(&self) -> F {
        self.func
    }

    /// Create a new SysCallHandler
    pub fn new(func: F) -> (r: Self)
        ensures
            r.func() == func,
    {
        SysCallHandler {
            func,
            _args: core::marker::PhantomData,
            _res: core::marker::PhantomData,
        }
    }

    /// Call the function
    pub fn call(&self, args: Args) -> (r: Res)
        requires
            self.func().accepts(args),
        ensures
            self.func().produces(args, r),
    {
        self.func.call(args)
    }
}

impl<F, Args, Res> WordFn for SysCallHandler<F, Args, Res> where
    F: UniFn<Args, Res>,
    Args: FromArgs,
    Res: ToIsize,
 {
    open spec fn accepts(&self, args: Seq<usize>) -> bool {
        handler_accepts::<F, Args, Res>(self.func(), args)
    }

    open spec fn yields(&self, args: Seq<usize>, w: isize) -> bool {
        handler_yields::<F, Args, Res>(self.func(), args, w)
    }

    fn invoke(&self, args: &[usize]) -> (w: isize) {
        let decoded = Args::from(args).unwrap();
        let res = self.call(decoded);
        res.to_isize()
    }
}

/// The wrapper of syscall handler
///
/// A handler whose argument and result types are erased: all that is left is
/// the uniform shape `(word slice) -> signed word`.
pub struct Service {
    service: Box<dyn WordFn>,
}

impl Service {
    /// The service may be invoked with `args`.
    pub closed spec fn accepts(&self, args: Seq<usize>) -> bool {
        self.service.accepts(args)
    }

    /// `w` is a word the service may give for `args`.
    pub closed spec fn yields(&self, args: Seq<usize>, w: isize) -> bool {
        self.service.yields(args, w)
    }

    /// The service behaves as the handler `func` bound to the codec: it
    /// accepts the word slices that `func` accepts once decoded, and gives the
    /// encodings of what `func` gives.
    pub open spec fn wraps<F: UniFn<Args, Res>, Args: FromArgs, Res: ToIsize>(
        &self,
        func: F,
    ) -> bool {
        &&& forall|args: Seq<usize>| #[trigger]
            self.accepts(args) == handler_accepts::<F, Args, Res>(func, args)
        &&& forall|args: Seq<usize>, w: isize| #[trigger]
            self.yields(args, w) == handler_yields::<F, Args, Res>(func, args, w)
    }

    /// Create a new Service
    ///
    /// The SysCallHandler is boxed behind the uniform shape, which erases the
    /// handler's argument and result types.
    pub fn from_handler<F, Args, Res>(handler: SysCallHandler<F, Args, Res>) -> (r: Self) where
        F: UniFn<Args, Res> + 'static,
        Args: FromArgs + 'static,
        Res: ToIsize + 'static,

        ensures
            r.wraps::<F, Args, Res>(handler.func()),
    {
        Service { service: Box::new(handler) }
    }

    /// Call the service
    pub fn handle(&self, args: &[usize]) -> (w: isize)
        requires
            self.accepts(args@),
        ensures
            self.yields(args@, w),
    {
        self.service.invoke(args)
    }
}

/// Create a SysCallHandler
pub fn register<F, Args, Res>(func: F) -> (r: SysCallHandler<F, Args, Res>) where
    F: UniFn<Args, Res> + 'static,
    Args: FromArgs + 'static,
    Res: ToIsize + 'static,

    ensures
        r.func() == func,
{
    SysCallHandler::new(func)
}

} // verus!
