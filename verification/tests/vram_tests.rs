use psp_apis::gfx::texture::{Texture, texture_size};
use psp_apis::gfx::vram_alloc::{VramAllocator, VramChunk, align_up};
use psp_apis::sys::gu::TexturePixelFormat;

#[test]
fn align_up_rounds_to_the_next_multiple() {
    assert_eq!(align_up(0, 16), 0);
    assert_eq!(align_up(1, 16), 16);
    assert_eq!(align_up(16, 16), 16);
    assert_eq!(align_up(0x1001, 0x1000), 0x2000);
}

#[test]
fn first_fit_allocates_in_address_order() {
    let mut a = VramAllocator::init(0x1000, 0x1000);
    let c1 = a.allocate(0x100, 0x10).unwrap();
    let c2 = a.allocate(0x100, 0x10).unwrap();
    assert_eq!((c1.addr(), c1.len()), (0x1000, 0x100));
    assert_eq!((c2.addr(), c2.len()), (0x1100, 0x100));
}

#[test]
fn allocation_respects_alignment() {
    let mut a = VramAllocator::init(0x1004, 0x1000);
    let c = a.allocate(0x10, 0x100).unwrap();
    assert_eq!(c.addr(), 0x1100);
    // The bytes skipped for alignment stay free.
    let small = a.allocate(0x10, 4).unwrap();
    assert_eq!(small.addr(), 0x1004);
}

#[test]
fn allocation_fails_when_nothing_fits() {
    let mut a = VramAllocator::init(0x1000, 0x100);
    assert!(a.allocate(0x101, 4).is_none());
    let c = a.allocate(0x100, 4).unwrap();
    assert_eq!(c.addr(), 0x1000);
    assert!(a.allocate(1, 1).is_none());
}

#[test]
fn dealloc_gives_the_range_back() {
    let mut a = VramAllocator::init(0x1000, 0x1000);
    let c1 = a.allocate(0x100, 0x10).unwrap();
    let c2 = a.allocate(0x100, 0x10).unwrap();
    a.dealloc(&c1);
    let c3 = a.allocate(0x80, 0x10).unwrap();
    assert_eq!(c3.addr(), 0x1000);
    c2.dealloc(&mut a);
    c3.dealloc(&mut a);
    // Everything was merged back: the whole range can be taken at once.
    let all = a.allocate(0x1000, 1).unwrap();
    assert_eq!((all.addr(), all.len()), (0x1000, 0x1000));
}

#[test]
fn chunk_allocate_takes_from_the_allocator() {
    let mut a = VramAllocator::init(0x2000, 0x400);
    let c = VramChunk::allocate(&mut a, 0x200, 0x100);
    assert_eq!((c.addr(), c.len()), (0x2000, 0x200));
    let d = VramChunk::allocate(&mut a, 0x200, 0x100);
    assert_eq!(d.addr(), 0x2200);
}

#[test]
fn texture_sizes_follow_the_pixel_format() {
    assert_eq!(texture_size(16, TexturePixelFormat::PsmT4), 8);
    assert_eq!(texture_size(1, TexturePixelFormat::PsmT4), 1);
    assert_eq!(texture_size(15, TexturePixelFormat::PsmT4), 8);
    assert_eq!(texture_size(15, TexturePixelFormat::PsmDxt1), 7);
    assert_eq!(texture_size(16, TexturePixelFormat::PsmT8), 16);
    assert_eq!(texture_size(16, TexturePixelFormat::Psm5650), 32);
    assert_eq!(texture_size(16, TexturePixelFormat::Psm8888), 64);
}

#[test]
fn texture_allocation_and_release() {
    let mut a = VramAllocator::init(0x0400_0000, 0x10_0000);
    let t = Texture::allocate(&mut a, 32, 16, TexturePixelFormat::Psm4444, false).unwrap();
    assert_eq!(t.vram_addr(), Some(0x0400_0000));
    assert_eq!(t.size(), (32, 16));
    assert!(t.can_be_framebuffer());
    assert!(t.can_be_depthbuffer());
    let u = Texture::allocate(&mut a, 32, 16, TexturePixelFormat::Psm8888, false).unwrap();
    assert_eq!(u.vram_addr(), Some(0x0400_0000 + 32 * 16 * 2));
    assert!(!u.can_be_depthbuffer());
    t.release(&mut a);
    let v = Texture::allocate(&mut a, 16, 16, TexturePixelFormat::Psm4444, false).unwrap();
    assert_eq!(v.vram_addr(), Some(0x0400_0000));
}

#[test]
fn texture_from_ram_checks_its_length() {
    let t = Texture::from_boxed_slice(4, 4, TexturePixelFormat::Psm8888, false, vec![0u8; 64].into_boxed_slice());
    assert!(t.is_ok());
    let t = t.unwrap();
    assert_eq!(t.buffer().len(), 64);
    assert_eq!(t.vram_addr(), None);
    let bad = Texture::from_boxed_slice(4, 4, TexturePixelFormat::Psm8888, false, vec![0u8; 63].into_boxed_slice());
    assert!(bad.is_err());
}

#[test]
fn held_chunks_do_not_overlap() {
    let mut a = VramAllocator::init(0x1000, 0x1000);
    let c1 = a.allocate(0x300, 0x100).unwrap();
    let c2 = a.allocate(0x300, 0x100).unwrap();
    assert!(c1.addr() + c1.len() <= c2.addr() || c2.addr() + c2.len() <= c1.addr());
}

#[test]
fn first_fit_takes_the_lowest_hole_that_fits() {
    let mut a = VramAllocator::init(0x1000, 0x1000);
    let c1 = a.allocate(0x40, 0x10).unwrap();
    let c2 = a.allocate(0x100, 0x10).unwrap();
    let c3 = a.allocate(0x40, 0x10).unwrap();
    let _c4 = a.allocate(0x100, 0x10).unwrap();
    a.dealloc(&c1);
    a.dealloc(&c3);
    // Free: [0x1000, 0x1040), [0x1140, 0x1180), [0x1280, 0x2000).
    // 0x80 bytes fit in neither small hole; the lowest place is 0x1280.
    let big = a.allocate(0x80, 0x10).unwrap();
    assert_eq!(big.addr(), 0x1280);
    // 0x40 bytes fit in the first hole.
    let small = a.allocate(0x40, 0x10).unwrap();
    assert_eq!(small.addr(), 0x1000);
    // Aligned to 0x80, the hole at 0x1140 is too short past 0x1180: the
    // lowest aligned place is 0x1300.
    let aligned = a.allocate(0x20, 0x80).unwrap();
    assert_eq!(aligned.addr(), 0x1300);
    c2.dealloc(&mut a);
}
