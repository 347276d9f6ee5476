use syscall_table::{Address, FromArgs, ToIsize, ToUsize};

#[test]
fn unit_decodes_from_any_slice() {
    assert_eq!(<() as FromArgs>::from(&[]), Ok(()));
    assert_eq!(<() as FromArgs>::from(&[1, 2, 3]), Ok(()));
}

#[test]
fn scalars_decode_word_zero_with_truncation() {
    assert_eq!(<usize as FromArgs>::from(&[42, 7]), Ok(42));
    assert_eq!(<u8 as FromArgs>::from(&[0x1ff]), Ok(0xff));
    assert_eq!(<u16 as FromArgs>::from(&[0x1_0005]), Ok(5));
    assert_eq!(<i8 as FromArgs>::from(&[usize::MAX]), Ok(-1));
    assert_eq!(<i32 as FromArgs>::from(&[(-7i32) as u32 as usize]), Ok(-7));
    assert_eq!(<isize as FromArgs>::from(&[usize::MAX]), Ok(-1));
    assert_eq!(<u64 as FromArgs>::from(&[9]), Ok(9));
    assert_eq!(<Address as FromArgs>::from(&[0x1000]), Ok(Address(0x1000)));
}

#[test]
fn scalar_underflow_names_the_type() {
    assert_eq!(
        <usize as FromArgs>::from(&[]),
        Err(String::from("usize:args.len() < 1"))
    );
    assert_eq!(<i16 as FromArgs>::from(&[]), Err(String::from("i16:args.len() < 1")));
    assert!(<Address as FromArgs>::from(&[]).is_err());
}

#[test]
fn tuple_positions_decode_at_their_own_index() {
    assert_eq!(<(usize,) as FromArgs>::from(&[3]), Ok((3,)));
    assert_eq!(<(usize, u8) as FromArgs>::from(&[1, 0x102, 9]), Ok((1, 2)));
    assert_eq!(
        <(u8, u8, u8, u8, u8, u8) as FromArgs>::from(&[1, 2, 3, 4, 5, 6]),
        Ok((1, 2, 3, 4, 5, 6))
    );
}

#[test]
fn tuple_underflow_is_an_error_not_a_panic() {
    assert!(<(usize, usize) as FromArgs>::from(&[1]).is_err());
    assert!(<(usize, usize, usize) as FromArgs>::from(&[]).is_err());
    assert!(<((), ()) as FromArgs>::from(&[]).is_err());
    assert_eq!(<((), ()) as FromArgs>::from(&[5]), Ok(((), ())));
}

#[test]
fn encode_scalars_and_unit() {
    assert_eq!(().to_isize(), 0);
    assert_eq!(5u8.to_isize(), 5);
    assert_eq!((-3i16).to_isize(), -3);
    assert_eq!(usize::MAX.to_isize(), -1);
    assert_eq!(1000u32.to_isize(), 1000);
}

#[test]
fn encode_two_outcomes_literally() {
    let failure: Result<(), i32> = Err(-2);
    let success: Result<usize, i32> = Ok(1);
    assert_eq!(failure.to_isize(), -2);
    assert_eq!(success.to_isize(), 1);
}

#[test]
fn encode_arguments_to_words() {
    assert_eq!(().to_usize(), 0);
    assert_eq!((-1i8).to_usize(), usize::MAX);
    assert_eq!(300u16.to_usize(), 300);
    assert_eq!(Address(0x40).to_usize(), 0x40);
}
