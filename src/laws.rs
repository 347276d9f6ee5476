//! Laws that relate the operations of the codec and of the runtime registry.
use crate::codec::{FromArgs, ToIsize};
use crate::service::handler_yields;
use crate::service::Service;
use crate::table::Table;
use crate::unifn::UniFn;
use vstd::prelude::*;

verus! {

/// Once `func` is registered under `id`, a call of `id` with any word slice
/// that holds at least the handler's arity of words (and whose decoded
/// arguments the handler accepts) is accepted, and gives exactly the
/// encodings of what `func` gives for the decoded arguments.
pub proof fn lemma_registered_dispatch<F: UniFn<Args, Res>, Args: FromArgs, Res: ToIsize>(
    t: Table,
    id: usize,
    func: F,
    args: Seq<usize>,
    w: isize,
)
    requires
        t@.contains_key(id),
        t@[id].wraps::<F, Args, Res>(func),
        args.len() >= Args::arity(),
        func.accepts(Args::decode(args)),
    ensures
        t@[id].accepts(args),
        t@[id].yields(args, w) <==> exists|res: Res|
            #[trigger] func.produces(Args::decode(args), res) && w == res.isize_of(),
{
}

/// An id that was removed from a table holds no service, so a call of it
/// reports the id unknown; so does an id of a fresh table.
pub proof fn lemma_removed_is_unknown(before: Table, after: Table, fresh: Table, id: usize)
    requires
        after@ == before@.remove(id),
        fresh@ == Map::<usize, Service>::empty(),
    ensures
        !after@.contains_key(id),
        !fresh@.contains_key(id),
{
}

/// Registering a second handler under an id replaces the first: the service
/// under the id then gives only what the second handler gives, and no id is
/// added or lost.
pub proof fn lemma_register_replaces<
    F: UniFn<A1, R1>,
    A1: FromArgs,
    R1: ToIsize,
    G: UniFn<A2, R2>,
    A2: FromArgs,
    R2: ToIsize,
>(first: Table, second: Table, id: usize, f: F, g: G)
    requires
        first@.contains_key(id),
        first@[id].wraps::<F, A1, R1>(f),
        second@.dom() == first@.dom().insert(id),
        second@[id].wraps::<G, A2, R2>(g),
    ensures
        second@.dom() == first@.dom(),
        forall|args: Seq<usize>, w: isize|
            #[trigger] second@[id].yields(args, w) == handler_yields::<G, A2, R2>(g, args, w),
{
    assert(second@.dom() =~= first@.dom());
}

/// A success outcome that encodes to a non-negative word and a failure
/// outcome that encodes to a negative word keep their signs in a two-outcome
/// result, so the two encodings never meet.
pub proof fn lemma_outcome_by_sign<T: ToIsize, E: ToIsize>(ok: T, err: E)
    requires
        ok.isize_of() >= 0,
        err.isize_of() < 0,
    ensures
        Ok::<T, E>(ok).isize_of() >= 0,
        Err::<T, E>(err).isize_of() < 0,
        Ok::<T, E>(ok).isize_of() != Err::<T, E>(err).isize_of(),
{
}

/// A result that one handler encodes, handed to another as its first word,
/// decodes to the same value for every type at most a word wide.
pub proof fn lemma_scalar_round_trip(
    a: u8,
    b: u16,
    c: u32,
    d: usize,
    e: i8,
    f: i16,
    g: i32,
    h: isize,
)
    ensures
        <u8 as FromArgs>::decode(seq![a.isize_of() as usize]) == a,
        <u16 as FromArgs>::decode(seq![b.isize_of() as usize]) == b,
        <u32 as FromArgs>::decode(seq![c.isize_of() as usize]) == c,
        <usize as FromArgs>::decode(seq![d.isize_of() as usize]) == d,
        <i8 as FromArgs>::decode(seq![e.isize_of() as usize]) == e,
        <i16 as FromArgs>::decode(seq![f.isize_of() as usize]) == f,
        <i32 as FromArgs>::decode(seq![g.isize_of() as usize]) == g,
        <isize as FromArgs>::decode(seq![h.isize_of() as usize]) == h,
{
    assert(((c as isize) as usize) as u32 == c) by (bit_vector);
    assert(((d as isize) as usize) as usize == d) by (bit_vector);
    assert(((e as isize) as usize) as i8 == e) by (bit_vector);
    assert(((f as isize) as usize) as i16 == f) by (bit_vector);
    assert(((g as isize) as usize) as i32 == g) by (bit_vector);
    assert(((h as isize) as usize) as isize == h) by (bit_vector);
}

} // verus!
