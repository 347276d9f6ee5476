//! The word codec: decoding typed arguments from machine words and encoding
//! handler results into one signed word.
use vstd::prelude::*;

verus! {

/// A raw memory address carried as one word.
///
/// The codec never looks at the memory it names: it only moves the number.
#[derive(Clone, Copy, Debug, PartialEq, Eq, Structural)]
pub struct Address(pub usize);

/// Encoding of a handler's result into one signed word.
pub trait ToIsize: Sized {
    /// The word that `to_isize` produces for `self`.
    spec fn isize_of(self) -> isize;

    /// Convert to isize
    fn to_isize(self) -> (r: isize)
        ensures
            r == self.isize_of(),
    ;
}

impl ToIsize for () {
    open spec fn isize_of(self) -> isize {
        0
    }

    fn to_isize(self) -> (r: isize) {
        0
    }
}

impl ToIsize for usize {
    open spec fn isize_of(self) -> isize {
        #[verifier::truncate] (self as isize)
    }

    fn to_isize(self) -> (r: isize) {
        self as isize
    }
}

impl ToIsize for u64 {
    open spec fn isize_of(self) -> isize {
        #[verifier::truncate] (self as isize)
    }

    fn to_isize(self) -> (r: isize) {
        self as isize
    }
}

impl ToIsize for u32 {
    open spec fn isize_of(self) -> isize {
        #[verifier::truncate] (self as isize)
    }

    fn to_isize(self) -> (r: isize) {
        self as isize
    }
}

impl ToIsize for u16 {
    open spec fn isize_of(self) -> isize {
        #[verifier::truncate] (self as isize)
    }

    fn to_isize(self) -> (r: isize) {
        self as isize
    }
}

impl ToIsize for u8 {
    open spec fn isize_of(self) -> isize {
        #[verifier::truncate] (self as isize)
    }

    fn to_isize(self) -> (r: isize) {
        self as isize
    }
}

impl ToIsize for isize {
    open spec fn isize_of(self) -> isize {
        #[verifier::truncate] (self as isize)
    }

    fn to_isize(self) -> (r: isize) {
        self as isize
    }
}

impl ToIsize for i64 {
    open spec fn isize_of(self) -> isize {
        #[verifier::truncate] (self as isize)
    }

    fn to_isize(self) -> (r: isize) {
        self as isize
    }
}

impl ToIsize for i32 {
    open spec fn isize_of(self) -> isize {
        #[verifier::truncate] (self as isize)
    }

    fn to_isize(self) -> (r: isize) {
        self as isize
    }
}

impl ToIsize for i16 {
    open spec fn isize_of(self) -> isize {
        #[verifier::truncate] (self as isize)
    }

    fn to_isize(self) -> (r: isize) {
        self as isize
    }
}

impl ToIsize for i8 {
    open spec fn isize_of(self) -> isize {
        #[verifier::truncate] (self as isize)
    }

    fn to_isize(self) -> (r: isize) {
        self as isize
    }
}

/// A two-outcome result encodes whichever outcome occurred, with no tag.
impl<T: ToIsize, E: ToIsize> ToIsize for Result<T, E> {
    open spec fn isize_of(self) -> isize {
        match self {
            Ok(t) => t.isize_of(),
            Err(e) => e.isize_of(),
        }
    }

    fn to_isize(self) -> (r: isize) {
        match self {
            Ok(t) => t.to_isize(),
            Err(e) => e.to_isize(),
        }
    }
}

/// Encoding of a caller's argument into one unsigned word.
pub trait ToUsize: Sized {
    /// The word that `to_usize` produces for `self`.
    spec fn usize_of(self) -> usize;

    /// Convert to usize
    fn to_usize(self) -> (r: usize)
        ensures
            r == self.usize_of(),
    ;
}

impl ToUsize for () {
    open spec fn usize_of(self) -> usize {
        0
    }

    fn to_usize(self) -> (r: usize) {
        0
    }
}

impl ToUsize for Address {
    open spec fn usize_of(self) -> usize {
        self.0
    }

    fn to_usize(self) -> (r: usize) {
        self.0
    }
}

impl ToUsize for usize {
    open spec fn usize_of(self) -> usize {
        #[verifier::truncate] (self as usize)
    }

    fn to_usize(self) -> (r: usize) {
        self as usize
    }
}

impl ToUsize for u64 {
    open spec fn usize_of(self) -> usize {
        #[verifier::truncate] (self as usize)
    }

    fn to_usize(self) -> (r: usize) {
        self as usize
    }
}

impl ToUsize for u32 {
    open spec fn usize_of(self) -> usize {
        #[verifier::truncate] (self as usize)
    }

    fn to_usize(self) -> (r: usize) {
        self as usize
    }
}

impl ToUsize for u16 {
    open spec fn usize_of(self) -> usize {
        #[verifier::truncate] (self as usize)
    }

    fn to_usize(self) -> (r: usize) {
        self as usize
    }
}

impl ToUsize for u8 {
    open spec fn usize_of(self) -> usize {
        #[verifier::truncate] (self as usize)
    }

    fn to_usize(self) -> (r: usize) {
        self as usize
    }
}

impl ToUsize for isize {
    open spec fn usize_of(self) -> usize {
        #[verifier::truncate] (self as usize)
    }

    fn to_usize(self) -> (r: usize) {
        self as usize
    }
}

impl ToUsize for i64 {
    open spec fn usize_of(self) -> usize {
        #[verifier::truncate] (self as usize)
    }

    fn to_usize(self) -> (r: usize) {
        self as usize
    }
}

impl ToUsize for i32 {
    open spec fn usize_of(self) -> usize {
        #[verifier::truncate] (self as usize)
    }

    fn to_usize(self) -> (r: usize) {
        self as usize
    }
}

impl ToUsize for i16 {
    open spec fn usize_of(self) -> usize {
        #[verifier::truncate] (self as usize)
    }

    fn to_usize(self) -> (r: usize) {
        self as usize
    }
}

impl ToUsize for i8 {
    open spec fn usize_of(self) -> usize {
        #[verifier::truncate] (self as usize)
    }

    fn to_usize(self) -> (r: usize) {
        self as usize
    }
}

/// Decoding of a typed value, or a tuple of them, from a word slice.
///
/// Decoding succeeds exactly when the slice holds at least `arity()` words;
/// the words past that are ignored.
pub trait FromArgs: Sized {
    /// The least number of words that decoding needs.
    spec fn arity() -> nat;

    /// The value decoded from `args`, when `args` is long enough.
    spec fn decode(args: Seq<usize>) -> Self;

    /// Convert arguments
    fn from(args: &[usize]) -> (r: Result<Self, String>)
        ensures
            r is Ok <==> args@.len() >= Self::arity(),
            r is Ok ==> r->Ok_0 == Self::decode(args@),
    ;
}

impl FromArgs for () {
    open spec fn arity() -> nat {
        0
    }

    open spec fn decode(args: Seq<usize>) -> () {
        ()
    }

    fn from(args: &[usize]) -> (r: Result<(), String>) {
        Ok(())
    }
}

impl FromArgs for Address {
    open spec fn arity() -> nat {
        1
    }

    open spec fn decode(args: Seq<usize>) -> Address {
        Address(args[0])
    }

    fn from(args: &[usize]) -> (r: Result<Address, String>) {
        if args.len() >= 1 {
            Ok(Address(args[0]))
        } else {
            Err(String::from_str("Address:args.len() < 1"))
        }
    }
}

impl FromArgs for usize {
    open spec fn arity() -> nat {
        1
    }

    open spec fn decode(args: Seq<usize>) -> usize {
        #[verifier::truncate] (args[0] as usize)
    }

    fn from(args: &[usize]) -> (r: Result<usize, String>) {
        if args.len() >= 1 {
            Ok(args[0] as usize)
        } else {
            Err(String::from_str("usize:args.len() < 1"))
        }
    }
}

impl FromArgs for u64 {
    open spec fn arity() -> nat {
        1
    }

    open spec fn decode(args: Seq<usize>) -> u64 {
        #[verifier::truncate] (args[0] as u64)
    }

    fn from(args: &[usize]) -> (r: Result<u64, String>) {
        if args.len() >= 1 {
            Ok(args[0] as u64)
        } else {
            Err(String::from_str("u64:args.len() < 1"))
        }
    }
}

impl FromArgs for u32 {
    open spec fn arity() -> nat {
        1
    }

    open spec fn decode(args: Seq<usize>) -> u32 {
        #[verifier::truncate] (args[0] as u32)
    }

    fn from(args: &[usize]) -> (r: Result<u32, String>) {
        if args.len() >= 1 {
            Ok(args[0] as u32)
        } else {
            Err(String::from_str("u32:args.len() < 1"))
        }
    }
}

impl FromArgs for u16 {
    open spec fn arity() -> nat {
        1
    }

    open spec fn decode(args: Seq<usize>) -> u16 {
        #[verifier::truncate] (args[0] as u16)
    }

    fn from(args: &[usize]) -> (r: Result<u16, String>) {
        if args.len() >= 1 {
            Ok(args[0] as u16)
        } else {
            Err(String::from_str("u16:args.len() < 1"))
        }
    }
}

impl FromArgs for u8 {
    open spec fn arity() -> nat {
        1
    }

    open spec fn decode(args: Seq<usize>) -> u8 {
        #[verifier::truncate] (args[0] as u8)
    }

    fn from(args: &[usize]) -> (r: Result<u8, String>) {
        if args.len() >= 1 {
            Ok(args[0] as u8)
        } else {
            Err(String::from_str("u8:args.len() < 1"))
        }
    }
}

impl FromArgs for isize {
    open spec fn arity() -> nat {
        1
    }

    open spec fn decode(args: Seq<usize>) -> isize {
        #[verifier::truncate] (args[0] as isize)
    }

    fn from(args: &[usize]) -> (r: Result<isize, String>) {
        if args.len() >= 1 {
            Ok(args[0] as isize)
        } else {
            Err(String::from_str("isize:args.len() < 1"))
        }
    }
}

impl FromArgs for i64 {
    open spec fn arity() -> nat {
        1
    }

    open spec fn decode(args: Seq<usize>) -> i64 {
        #[verifier::truncate] (args[0] as i64)
    }

    fn from(args: &[usize]) -> (r: Result<i64, String>) {
        if args.len() >= 1 {
            Ok(args[0] as i64)
        } else {
            Err(String::from_str("i64:args.len() < 1"))
        }
    }
}

impl FromArgs for i32 {
    open spec fn arity() -> nat {
        1
    }

    open spec fn decode(args: Seq<usize>) -> i32 {
        #[verifier::truncate] (args[0] as i32)
    }

    fn from(args: &[usize]) -> (r: Result<i32, String>) {
        if args.len() >= 1 {
            Ok(args[0] as i32)
        } else {
            Err(String::from_str("i32:args.len() < 1"))
        }
    }
}

impl FromArgs for i16 {
    open spec fn arity() -> nat {
        1
    }

    open spec fn decode(args: Seq<usize>) -> i16 {
        #[verifier::truncate] (args[0] as i16)
    }

    fn from(args: &[usize]) -> (r: Result<i16, String>) {
        if args.len() >= 1 {
            Ok(args[0] as i16)
        } else {
            Err(String::from_str("i16:args.len() < 1"))
        }
    }
}

impl FromArgs for i8 {
    open spec fn arity() -> nat {
        1
    }

    open spec fn decode(args: Seq<usize>) -> i8 {
        #[verifier::truncate] (args[0] as i8)
    }

    fn from(args: &[usize]) -> (r: Result<i8, String>) {
        if args.len() >= 1 {
            Ok(args[0] as i8)
        } else {
            Err(String::from_str("i8:args.len() < 1"))
        }
    }
}

/// Position `n` of the tuple decodes from the words starting at index `n`.
impl<P0: FromArgs> FromArgs for (P0,) {
    open spec fn arity() -> nat {
        P0::arity()
    }

    open spec fn decode(args: Seq<usize>) -> (P0,) {
        (P0::decode(args),)
    }

    fn from(args: &[usize]) -> (r: Result<(P0,), String>) {
        let a0 = P0::from(args)?;
        Ok((a0,))
    }
}

/// Position `n` of the tuple decodes from the words starting at index `n`.
impl<P0: FromArgs, P1: FromArgs> FromArgs for (P0, P1) {
    open spec fn arity() -> nat {
        max_nat(P0::arity(), 1 + P1::arity())
    }

    open spec fn decode(args: Seq<usize>) -> (P0, P1) {
        (P0::decode(args), P1::decode(args.subrange(1, args.len() as int)))
    }

    fn from(args: &[usize]) -> (r: Result<(P0, P1), String>) {
        if args.len() < 1 {
            return Err(String::from_str("args.len() < 1"));
        }
        let a0 = P0::from(args)?;
        let a1 = P1::from(&args[1..args.len()])?;
        Ok((a0, a1))
    }
}

/// Position `n` of the tuple decodes from the words starting at index `n`.
impl<P0: FromArgs, P1: FromArgs, P2: FromArgs> FromArgs for (P0, P1, P2) {
    open spec fn arity() -> nat {
        max_nat(P0::arity(), max_nat(1 + P1::arity(), 2 + P2::arity()))
    }

    open spec fn decode(args: Seq<usize>) -> (P0, P1, P2) {
        (P0::decode(args), P1::decode(args.subrange(1, args.len() as int)), P2::decode(args.subrange(2, args.len() as int)))
    }

    fn from(args: &[usize]) -> (r: Result<(P0, P1, P2), String>) {
        if args.len() < 2 {
            return Err(String::from_str("args.len() < 2"));
        }
        let a0 = P0::from(args)?;
        let a1 = P1::from(&args[1..args.len()])?;
        let a2 = P2::from(&args[2..args.len()])?;
        Ok((a0, a1, a2))
    }
}

/// Position `n` of the tuple decodes from the words starting at index `n`.
impl<P0: FromArgs, P1: FromArgs, P2: FromArgs, P3: FromArgs> FromArgs for (P0, P1, P2, P3) {
    open spec fn arity() -> nat {
        max_nat(P0::arity(), max_nat(1 + P1::arity(), max_nat(2 + P2::arity(), 3 + P3::arity())))
    }

    open spec fn decode(args: Seq<usize>) -> (P0, P1, P2, P3) {
        (P0::decode(args), P1::decode(args.subrange(1, args.len() as int)), P2::decode(args.subrange(2, args.len() as int)), P3::decode(args.subrange(3, args.len() as int)))
    }

    fn from(args: &[usize]) -> (r: Result<(P0, P1, P2, P3), String>) {
        if args.len() < 3 {
            return Err(String::from_str("args.len() < 3"));
        }
        let a0 = P0::from(args)?;
        let a1 = P1::from(&args[1..args.len()])?;
        let a2 = P2::from(&args[2..args.len()])?;
        let a3 = P3::from(&args[3..args.len()])?;
        Ok((a0, a1, a2, a3))
    }
}

/// Position `n` of the tuple decodes from the words starting at index `n`.
impl<P0: FromArgs, P1: FromArgs, P2: FromArgs, P3: FromArgs, P4: FromArgs> FromArgs for (P0, P1, P2, P3, P4) {
    open spec fn arity() -> nat {
        max_nat(P0::arity(), max_nat(1 + P1::arity(), max_nat(2 + P2::arity(), max_nat(3 + P3::arity(), 4 + P4::arity()))))
    }

    open spec fn decode(args: Seq<usize>) -> (P0, P1, P2, P3, P4) {
        (P0::decode(args), P1::decode(args.subrange(1, args.len() as int)), P2::decode(args.subrange(2, args.len() as int)), P3::decode(args.subrange(3, args.len() as int)), P4::decode(args.subrange(4, args.len() as int)))
    }

    fn from(args: &[usize]) -> (r: Result<(P0, P1, P2, P3, P4), String>) {
        if args.len() < 4 {
            return Err(String::from_str("args.len() < 4"));
        }
        let a0 = P0::from(args)?;
        let a1 = P1::from(&args[1..args.len()])?;
        let a2 = P2::from(&args[2..args.len()])?;
        let a3 = P3::from(&args[3..args.len()])?;
        let a4 = P4::from(&args[4..args.len()])?;
        Ok((a0, a1, a2, a3, a4))
    }
}

/// Position `n` of the tuple decodes from the words starting at index `n`.
impl<P0: FromArgs, P1: FromArgs, P2: FromArgs, P3: FromArgs, P4: FromArgs, P5: FromArgs> FromArgs for (P0, P1, P2, P3, P4, P5) {
    open spec fn arity() -> nat {
        max_nat(P0::arity(), max_nat(1 + P1::arity(), max_nat(2 + P2::arity(), max_nat(3 + P3::arity(), max_nat(4 + P4::arity(), 5 + P5::arity())))))
    }

    open spec fn decode(args: Seq<usize>) -> (P0, P1, P2, P3, P4, P5) {
        (P0::decode(args), P1::decode(args.subrange(1, args.len() as int)), P2::decode(args.subrange(2, args.len() as int)), P3::decode(args.subrange(3, args.len() as int)), P4::decode(args.subrange(4, args.len() as int)), P5::decode(args.subrange(5, args.len() as int)))
    }

    fn from(args: &[usize]) -> (r: Result<(P0, P1, P2, P3, P4, P5), String>) {
        if args.len() < 5 {
            return Err(String::from_str("args.len() < 5"));
        }
        let a0 = P0::from(args)?;
        let a1 = P1::from(&args[1..args.len()])?;
        let a2 = P2::from(&args[2..args.len()])?;
        let a3 = P3::from(&args[3..args.len()])?;
        let a4 = P4::from(&args[4..args.len()])?;
        let a5 = P5::from(&args[5..args.len()])?;
        Ok((a0, a1, a2, a3, a4, a5))
    }
}

/// The larger of two naturals.
pub open spec fn max_nat(a: nat, b: nat) -> nat {
    if a >= b {
        a
    } else {
        b
    }
}

} // verus!
