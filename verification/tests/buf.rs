use file_volatile::{FileVolatileBuf, FileVolatileSlice};

#[test]
fn test_new_file_volatile_buf() {
    let mut buf = [0u8; 1024];
    let mut buf2 = FileVolatileBuf::new(&mut buf);
    assert_eq!(buf2.bytes_total(), 1024);
    assert_eq!(buf2.bytes_init(), 0);
    assert_eq!(buf2.stable_ptr(), buf.as_ptr() as usize);
    let at = buf2.stable_mut_ptr() - buf.as_ptr() as usize;
    buf[at] = b'a';
    assert_eq!(buf[0], b'a');
}

#[test]
fn new_leaves_the_bytes_alone() {
    let mut buf = [7u8; 32];
    let made = FileVolatileBuf::new(&mut buf);
    assert_eq!(made.bytes_total(), 32);
    assert_eq!(buf, [7u8; 32]);
}

#[test]
fn new_of_an_empty_region() {
    let mut buf: [u8; 0] = [];
    let made = FileVolatileBuf::new(&mut buf);
    assert_eq!(made.bytes_total(), 0);
    assert_eq!(made.bytes_init(), 0);
}

#[test]
fn set_init_is_reported() {
    let mut buf = [0u8; 1024];
    let mut made = FileVolatileBuf::new(&mut buf);
    let addr = made.stable_ptr();
    buf[0] = b'x';
    made.set_init(1);
    assert_eq!(made.bytes_init(), 1);
    assert_eq!(made.bytes_total(), 1024);
    assert_eq!(made.stable_ptr(), addr);
    made.set_init(1024);
    assert_eq!(made.bytes_init(), 1024);
    made.set_init(0);
    assert_eq!(made.bytes_init(), 0);
    assert_eq!(made.bytes_total(), 1024);
}

#[test]
fn from_raw_keeps_its_parts() {
    let mut made = FileVolatileBuf::from_raw(0x1000, 3, 64);
    assert_eq!(made.stable_ptr(), 0x1000);
    assert_eq!(made.stable_mut_ptr(), 0x1000);
    assert_eq!(made.bytes_init(), 3);
    assert_eq!(made.bytes_total(), 64);
    let full = FileVolatileBuf::from_raw(usize::MAX, 64, 64);
    assert_eq!(full.stable_ptr(), usize::MAX);
    assert_eq!(full.bytes_init(), 64);
    assert_eq!(full.bytes_total(), 64);
}

#[test]
fn stable_pointers_agree_and_stay() {
    let mut made = FileVolatileBuf::from_raw(0x2000, 0, 16);
    let before = made.stable_ptr();
    assert_eq!(made.stable_mut_ptr(), before);
    made.set_init(16);
    assert_eq!(made.stable_ptr(), before);
    assert_eq!(made.stable_mut_ptr(), before);
    let copy = made;
    assert_eq!(copy.stable_ptr(), before);
    assert_eq!(copy.bytes_init(), 16);
}

#[test]
fn borrow_mut_starts_uninitialized() {
    let view = FileVolatileSlice::new(0x4000, 1024);
    let part = view.offset(24).unwrap();
    let made = part.borrow_mut();
    assert_eq!(made.stable_ptr(), 0x4018);
    assert_eq!(made.bytes_init(), 0);
    assert_eq!(made.bytes_total(), 1000);
    assert_eq!(part.len(), 1000);
}
