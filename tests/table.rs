use syscall_table::{Address, Table};

fn read(p1: usize, p2: usize) -> isize {
    println!("p1+p2 = {}", p1 + p2);
    0
}

fn add(a: usize, b: usize) -> isize {
    (a + b) as isize
}

fn test(p1: usize, p2: usize, p3: Address) -> isize {
    let len = p1 + p2;
    println!("read {} bytes at {:#x}", len, p3.0);
    0
}

#[test]
fn table_register_test() {
    let mut table = Table::new();
    table.register(0, read);
    table.register(1, test);
    table.register(2, add);
    table.do_call(0, &[1, 2, 0, 0, 0, 0]);
    let data = [6usize; 8];
    table.do_call(1, &[0, 8 * 8, data.as_ptr() as usize]);
    let v = table.do_call(2, &[2, 4]);
    assert_eq!(v, Some(6));
}

#[test]
fn register_macro_test() {
    let mut table = Table::new();
    table.register(0, read);
    table.register(1, test);
    table.register(2, add);
    let v = table.do_call(2, &[2, 4]);
    assert_eq!(v, Some(6));
}

fn zero() -> isize {
    7
}

fn one(a: u8) -> isize {
    a as isize
}

fn three(a: usize, b: usize, c: usize) -> usize {
    a * 100 + b * 10 + c
}

fn four(a: i32, b: i32, c: i32, d: i32) -> i64 {
    (a + b + c + d) as i64
}

fn five(a: usize, b: usize, c: usize, d: usize, e: usize) -> usize {
    a + b + c + d + e
}

fn six(a: usize, b: usize, c: usize, d: usize, e: usize, f: usize) -> usize {
    a * b * c * d * e * f
}

#[test]
fn dispatch_covers_arities_zero_to_six() {
    let mut table = Table::new();
    table.register(0, zero);
    table.register(1, one);
    table.register(2, add);
    table.register(3, three);
    table.register(4, four);
    table.register(5, five);
    table.register(6, six);
    assert_eq!(table.do_call(0, &[]), Some(7));
    assert_eq!(table.do_call(1, &[0x1ff]), Some(0xff));
    assert_eq!(table.do_call(2, &[40, 2, 99]), Some(42));
    assert_eq!(table.do_call(3, &[1, 2, 3]), Some(123));
    assert_eq!(table.do_call(4, &[1, 2, 3, (-10i32) as u32 as usize]), Some(-4));
    assert_eq!(table.do_call(5, &[1, 2, 3, 4, 5, 6, 7]), Some(15));
    assert_eq!(table.do_call(6, &[1, 2, 3, 4, 5, 6]), Some(720));
}

#[test]
fn remove_then_call_reports_unknown() {
    let mut table = Table::new();
    assert_eq!(table.do_call(9, &[1, 2]), None);
    table.register(9, add);
    assert_eq!(table.do_call(9, &[1, 2]), Some(3));
    let removed = table.remove(9);
    assert!(removed.is_some());
    assert_eq!(removed.unwrap().handle(&[5, 6]), 11);
    assert_eq!(table.do_call(9, &[1, 2]), None);
    assert!(table.remove(9).is_none());
}

fn sub(a: usize, b: usize) -> isize {
    a as isize - b as isize
}

#[test]
fn second_register_replaces_first() {
    let mut table = Table::new();
    table.register(3, add);
    table.register(3, sub);
    assert_eq!(table.do_call(3, &[2, 5]), Some(-3));
    table.register(4, add);
    assert_eq!(table.do_call(4, &[2, 5]), Some(7));
    assert_eq!(table.do_call(3, &[2, 5]), Some(-3));
}

fn negate(a: i16) -> i16 {
    -a
}

fn widen(a: i16) -> isize {
    a as isize
}

fn wrap_u8(a: usize) -> u8 {
    a as u8
}

fn echo_u8(a: u8) -> u8 {
    a
}

#[test]
fn encoded_result_feeds_next_handler() {
    let mut table = Table::new();
    table.register(0, negate);
    table.register(1, widen);
    table.register(2, wrap_u8);
    table.register(3, echo_u8);
    let w = table.do_call(0, &[1234]).unwrap();
    assert_eq!(w, -1234);
    assert_eq!(table.do_call(1, &[w as usize]), Some(-1234));
    let w = table.do_call(2, &[0x1_2345]).unwrap();
    assert_eq!(w, 0x45);
    assert_eq!(table.do_call(3, &[w as usize]), Some(0x45));
}

fn failing() -> Result<(), i32> {
    Err(-2)
}

fn succeeding() -> Result<usize, i32> {
    Ok(1)
}

#[test]
fn two_outcome_results_keep_their_sign() {
    let mut table = Table::new();
    table.register(7, failing);
    table.register(8, succeeding);
    assert_eq!(table.do_call(7, &[]), Some(-2));
    assert_eq!(table.do_call(8, &[]), Some(1));
}

#[test]
fn scenario_add_two_words() {
    let mut table = Table::new();
    table.register(0, |p1: usize, p2: usize| -> isize { (p1 + p2) as isize });
    assert_eq!(table.do_call(0, &[1, 2, 0, 0, 0, 0]), Some(3));
}

#[test]
fn scenario_read_buffer_by_address() {
    let data: Vec<usize> = vec![0usize; 64];
    let base = data.as_ptr() as usize;
    let reader = move |addr: Address, len: usize| -> isize {
        let bytes = len.min(data.len() * 8);
        if addr.0 != base {
            return -1;
        }
        let mut sum: usize = 0;
        for i in 0..bytes {
            sum += (data[i / 8] >> ((i % 8) * 8)) & 0xff;
        }
        sum as isize
    };
    let mut table = Table::new();
    table.register(1, reader);
    assert_eq!(table.do_call(1, &[base, 64]), Some(0));
}
