use hwrng::error::Error;
use hwrng::io_mem::{IoMem, IoRequest};

#[test]
fn window_keeps_its_base_and_size() {
    let mem = IoMem::<0x100>::new(0x1083_0600);
    assert_eq!(mem.base(), 0x1083_0600);
    assert_eq!(mem.size(), 0x100);
}

#[test]
fn words_must_lie_inside_on_a_boundary() {
    assert!(IoMem::<0x100>::offset_ok(0));
    assert!(IoMem::<0x100>::offset_ok(0xfc));
    assert!(!IoMem::<0x100>::offset_ok(0xfd));
    assert!(!IoMem::<0x100>::offset_ok(0x100));
    assert!(!IoMem::<0x100>::offset_ok(2));
    assert!(!IoMem::<0x100>::offset_ok(usize::MAX));
    assert!(!IoMem::<3>::offset_ok(0));
    assert!(IoMem::<4>::offset_ok(0));
}

#[test]
fn word_accesses_are_described() {
    let mem = IoMem::<0x100>::new(0);
    assert_eq!(mem.writel_relaxed(7, 0x20), IoRequest::Write { offset: 0x20, value: 7 });
    assert_eq!(mem.readl_relaxed(0x50), IoRequest::Read { offset: 0x50 });
    assert_eq!(mem.try_writel_relaxed(9, 0xfc), Ok(IoRequest::Write { offset: 0xfc, value: 9 }));
    assert_eq!(mem.try_readl_relaxed(0), Ok(IoRequest::Read { offset: 0 }));
}

#[test]
fn word_accesses_outside_are_out_of_range() {
    let mem = IoMem::<0x100>::new(0);
    assert_eq!(mem.try_writel_relaxed(9, 0x100), Err(Error::OutOfRange));
    assert_eq!(mem.try_writel_relaxed(9, 0x21), Err(Error::OutOfRange));
    assert_eq!(mem.try_readl_relaxed(0xfe), Err(Error::OutOfRange));
    assert_eq!(mem.try_readl_relaxed(usize::MAX - 1), Err(Error::OutOfRange));
}

#[test]
fn copies_are_checked_against_the_window() {
    let mem = IoMem::<0x100>::new(0);
    assert_eq!(mem.try_memcpy_fromio(32, 0x80), Ok(IoRequest::Copy { offset: 0x80, len: 32 }));
    assert_eq!(mem.try_memcpy_fromio(0x100, 0), Ok(IoRequest::Copy { offset: 0, len: 0x100 }));
    assert_eq!(mem.try_memcpy_fromio(0, 0x100), Ok(IoRequest::Copy { offset: 0x100, len: 0 }));
    assert_eq!(mem.try_memcpy_fromio(3, 0x81), Ok(IoRequest::Copy { offset: 0x81, len: 3 }));
    assert_eq!(mem.try_memcpy_fromio(0x81, 0x80), Err(Error::OutOfRange));
    assert_eq!(mem.try_memcpy_fromio(0, 0x101), Err(Error::OutOfRange));
    assert_eq!(mem.try_memcpy_fromio(usize::MAX, 1), Err(Error::OutOfRange));
    assert_eq!(mem.try_memcpy_fromio(1, usize::MAX), Err(Error::OutOfRange));
}
