use psp_apis::input::Input;
use psp_apis::ptr::{make_cached, make_cached_mut, make_uncached, make_uncached_mut};
use psp_apis::sys::ctrl::{CtrlButtons, SceCtrlData};
use psp_apis::sys::fpu::{Fcr31, set_fcr31_ieee754, set_fcr31_psp_default};
use psp_apis::sys::heap::{block_size, block_start, place_in_block};
use psp_apis::sys::mem::{memcpy, memmove, memory_compare, memset, strlen};

fn sample(timestamp: u32, buttons: u32, lx: u8, ly: u8) -> SceCtrlData {
    SceCtrlData { timestamp, buttons: CtrlButtons::from_bits_retain(buttons), lx, ly, rsrv: [0; 6] }
}

fn cross() -> CtrlButtons {
    CtrlButtons::from_bits_retain(CtrlButtons::CROSS)
}

#[test]
fn buttons_just_pressed_and_released() {
    let mut input = Input::default();
    assert!(!input.button_pressed(cross()));
    input.read_mut(sample(1, CtrlButtons::CROSS, 128, 128));
    assert!(input.button_pressed(cross()));
    assert!(input.button_just_pressed(cross()));
    assert!(!input.button_just_released(cross()));
    input.read_mut(sample(2, CtrlButtons::CROSS, 128, 128));
    assert!(input.button_pressed(cross()));
    assert!(!input.button_just_pressed(cross()));
    assert!(!input.button_just_modified(cross()));
    input.read_mut(sample(3, 0, 0, 255));
    assert!(!input.button_pressed(cross()));
    assert!(input.button_just_released(cross()));
    assert_eq!(input.timestamp(), 3);
    assert_eq!(input.analog_stick(), (0, 255));
}

#[test]
fn button_flags() {
    let b = CtrlButtons::from_bits_retain(CtrlButtons::START | CtrlButtons::UP);
    assert!(b.contains(CtrlButtons::from_bits_retain(CtrlButtons::UP)));
    assert!(!b.contains(cross()));
    assert_eq!(b.symmetric_difference(CtrlButtons::from_bits_retain(CtrlButtons::UP)).bits(), CtrlButtons::START);
    assert_eq!(CtrlButtons::empty().bits(), 0);
}

#[test]
fn cache_aliases() {
    assert_eq!(make_uncached(0x0880_0000), 0x4880_0000);
    assert_eq!(make_uncached_mut(0x4880_0000), 0x4880_0000);
    assert_eq!(make_cached(0x4880_0000), 0x0880_0000);
    assert_eq!(make_cached_mut(make_uncached(0x0412_3456)), 0x0412_3456);
}

#[test]
fn fpu_control_values() {
    assert_eq!(set_fcr31_ieee754().bits(), 0);
    assert_eq!(set_fcr31_psp_default().bits(), 0xe00);
    let f = Fcr31::from_bits_retain(Fcr31::ROUND_MODE_ZERO).union(Fcr31::from_bits_retain(Fcr31::FLAG_INEXACT));
    assert_eq!(f.bits(), 5);
}

#[test]
fn heap_blocks_ask_for_room_to_align() {
    assert_eq!(block_size(100, 8), Some(112));
    assert_eq!(block_size(0xffff_ff00, 0x100), None);
}

#[test]
fn heap_block_data_is_aligned_and_finds_its_block() {
    for &(base, align) in &[(0x1000usize, 16usize), (0x1003, 8), (0x2000, 1), (0x10fc, 128)] {
        let (data, pad) = place_in_block(base, align);
        assert_eq!(data % align, 0);
        assert!(pad >= 1 && pad as usize <= align);
        assert_eq!(data, base + 4 + pad as usize);
        assert_eq!(block_start(data, pad), base);
    }
    // A block at 0x1000 aligned to 16: identifier at 0x1000..0x1004, padding
    // up to 0x1010.
    assert_eq!(place_in_block(0x1000, 16), (0x1010, 12));
}

#[test]
fn heap_padding_of_256_does_not_fit_its_byte() {
    let (data, pad) = place_in_block(0x10fc, 256);
    assert_eq!(data, 0x1200);
    assert_eq!(pad, 0);
    assert_ne!(block_start(data, pad), 0x10fc);
}

#[test]
fn memory_routines() {
    let mut v = vec![1u8, 2, 3, 4, 5];
    memset(&mut v, 0x1ff, 3);
    assert_eq!(v, vec![0xff, 0xff, 0xff, 4, 5]);
    memcpy(&mut v, &[9, 8], 2);
    assert_eq!(v, vec![9, 8, 0xff, 4, 5]);
    assert_eq!(memory_compare(&[1, 2, 3], &[1, 2, 4], 3), -1);
    assert_eq!(memory_compare(&[1, 9, 3], &[1, 2, 4], 3), 7);
    assert_eq!(memory_compare(&[1, 2, 3], &[1, 2, 4], 2), 0);
    assert_eq!(strlen(b"hello\0world\0"), 5);
    assert_eq!(strlen(b"\0"), 0);
}

#[test]
fn copied_bytes_compare_equal() {
    let src = [7u8, 0, 255, 3];
    let mut dst = vec![1u8, 2, 3, 4, 5];
    memcpy(&mut dst, &src, 4);
    assert_eq!(memory_compare(&dst, &src, 4), 0);
    assert_ne!(memory_compare(&dst, &[7, 0, 254, 3], 4), 0);
}

#[test]
fn memmove_handles_overlap_both_ways() {
    let mut v = vec![0u8, 1, 2, 3, 4, 5, 6, 7, 8, 9];
    memmove(&mut v, 2, 0, 6);
    assert_eq!(v, vec![0, 1, 0, 1, 2, 3, 4, 5, 8, 9]);
    let mut w = vec![0u8, 1, 2, 3, 4, 5, 6, 7, 8, 9];
    memmove(&mut w, 0, 3, 7);
    assert_eq!(w, vec![3, 4, 5, 6, 7, 8, 9, 7, 8, 9]);
    let mut x = vec![5u8, 6];
    memmove(&mut x, 1, 1, 1);
    assert_eq!(x, vec![5, 6]);
}
