use file_volatile::hex::push_hex;

fn hex(n: usize) -> String {
    let mut out = String::new();
    push_hex(&mut out, n);
    out
}

#[test]
fn single_digits() {
    assert_eq!(hex(0), "0");
    assert_eq!(hex(9), "9");
    assert_eq!(hex(10), "a");
    assert_eq!(hex(15), "f");
}

#[test]
fn several_digits() {
    assert_eq!(hex(16), "10");
    assert_eq!(hex(255), "ff");
    assert_eq!(hex(256), "100");
    assert_eq!(hex(0x1234_abcd), "1234abcd");
    assert_eq!(hex(0x0900_0f00), "9000f00");
}

#[test]
fn every_digit_in_order() {
    let mut n: usize = 0;
    let mut expected = String::new();
    for d in 1..16usize {
        n = n * 16 + d;
        expected.push(char::from_digit(d as u32, 16).unwrap());
        if d == 7 {
            assert_eq!(hex(n), "1234567");
        }
    }
    assert_eq!(hex(n), expected);
    assert_eq!(expected, "123456789abcdef");
}

#[test]
fn largest_value() {
    assert_eq!(hex(usize::MAX), format!("{:x}", usize::MAX));
    assert_eq!(hex(usize::MAX - 1), format!("{:x}", usize::MAX - 1));
}

#[test]
fn appends_after_what_is_there() {
    let mut out = String::from("0x");
    push_hex(&mut out, 0x2a);
    assert_eq!(out, "0x2a");
    push_hex(&mut out, 0);
    assert_eq!(out, "0x2a0");
}

#[test]
fn agrees_with_the_standard_formatter() {
    let samples: [usize; 8] = [1, 17, 4095, 4096, 65535, 65536, 0x8000_0000, 0x7fff_ffff];
    for n in samples {
        assert_eq!(hex(n), format!("{:x}", n));
    }
}
