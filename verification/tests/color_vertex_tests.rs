use psp_apis::gfx::color::{Color32, pack_channels, swap_bytes};
use psp_apis::gfx::vertex::{const_vt_size, vt_alignments, vt_element_sizes, vt_size, vt_sizes};
use psp_apis::sys::gu::VertexType;

#[test]
fn color_from_rgb_orders_channels() {
    let c = Color32::from_rgb(0x11_2233);
    assert_eq!(c.as_abgr(), 0xff33_2211);
    assert_eq!((c.r(), c.g(), c.b(), c.a()), (0x11, 0x22, 0x33, 0xff));
    assert_eq!(c.as_rgb(), 0x11_2233);
    assert_eq!(Color32::from_rgb(0xffa500).as_rgb(), 0xffa500);
    assert_eq!(Color32::from_rgb(0xab12_3456).as_rgb(), 0x12_3456);
}

#[test]
fn color_round_trips() {
    let c = Color32::from_rgba(0x1122_3344);
    assert_eq!(c.as_rgba(), 0x1122_3344);
    assert_eq!(c.as_abgr(), 0x4433_2211);
    let d = Color32::from_abgr(0x8040_2010);
    assert_eq!((d.r(), d.g(), d.b(), d.a()), (0x10, 0x20, 0x40, 0x80));
    assert_eq!(d.as_bgr(), 0x40_2010);
    assert_eq!(Color32::from_rgba_channels(1, 2, 3, 4).as_abgr(), 0x0403_0201);
    assert_eq!(Color32::from_rgb_channels(1, 2, 3).as_abgr(), 0xff03_0201);
    assert_eq!(Color32::from_bgr_channels(3, 2, 1).as_abgr(), 0xff03_0201);
    assert_eq!(Color32::from_abgr_channels(4, 3, 2, 1).as_abgr(), 0x0403_0201);
}

#[test]
fn byte_helpers() {
    assert_eq!(pack_channels(0xaa, 0xbb, 0xcc, 0xdd), 0xaabb_ccdd);
    assert_eq!(swap_bytes(0x1234_5678), 0x7856_3412);
    assert_eq!(swap_bytes(swap_bytes(0xdead_beef)), 0xdead_beef);
}

fn size_of(bits: i32) -> usize {
    const_vt_size(VertexType::from_bits_retain(bits)).get()
}

#[test]
fn vertex_sizes_of_common_layouts() {
    assert_eq!(size_of(VertexType::VERTEX_16BIT | VertexType::TRANSFORM_2D), 6);
    assert_eq!(size_of(VertexType::COLOR_5650 | VertexType::VERTEX_8BIT), 5);
    assert_eq!(size_of(VertexType::TEXTURE_32BITF | VertexType::COLOR_8888 | VertexType::VERTEX_32BITF), 24);
    assert_eq!(size_of(VertexType::TEXTURE_32BITF | VertexType::VERTEX_32BITF), 20);
}

#[test]
fn a_ten_byte_vertex_counts_as_twelve() {
    assert_eq!(size_of(VertexType::TEXTURE_16BIT | VertexType::VERTEX_16BIT), 12);
    assert_eq!(size_of(VertexType::NORMAL_8BIT | VertexType::VERTEX_16BIT), 12);
}

#[test]
fn vertex_layout_paddings() {
    let vt = VertexType::from_bits_retain(VertexType::NORMAL_8BIT | VertexType::VERTEX_16BIT);
    let e = vt_element_sizes(vt);
    assert_eq!(e, [0, 0, 1, 2, 0]);
    let s = vt_sizes(&e, vt);
    assert_eq!(s, [0, 0, 3, 6, 0]);
    let (size, pads) = vt_alignments(&e, &s);
    assert_eq!(size, 10);
    assert_eq!(pads, [0, 0, 0, 1, 0]);
    assert_eq!(vt_size(&e, &s), 12);
}

#[test]
fn vertex_type_flags() {
    let a = VertexType::from_bits_retain(VertexType::COLOR_8888);
    let b = VertexType::from_bits_retain(VertexType::VERTEX_32BITF);
    let both = a.union(b);
    assert_eq!(both.bits(), 0x19c);
    assert!(both.contains(a));
    assert!(both.intersects(b));
    assert!(!a.intersects(b));
    assert_eq!(VertexType::num_weights(3), 0x8000);
    assert_eq!(VertexType::num_vertices(2), 0x40000);
    assert_eq!(VertexType::empty().bits(), 0);
}

#[test]
fn vertex_weights_count_one_to_eight() {
    let four = VertexType::from_bits_retain(VertexType::WEIGHT_8BIT | VertexType::WEIGHTS4 | VertexType::VERTEX_8BIT);
    let e = vt_element_sizes(four);
    assert_eq!(vt_sizes(&e, four)[4], 4);
    assert_eq!(size_of(four.bits()), 7);
    let eight = VertexType::from_bits_retain(VertexType::WEIGHT_16BIT | VertexType::WEIGHTS8 | VertexType::VERTEX_16BIT);
    let e = vt_element_sizes(eight);
    assert_eq!(vt_sizes(&e, eight)[4], 16);
    assert_eq!(size_of(eight.bits()), 22);
    let five = VertexType::from_bits_retain(VertexType::WEIGHT_8BIT | VertexType::WEIGHTS5 | VertexType::VERTEX_8BIT);
    assert_eq!(vt_sizes(&vt_element_sizes(five), five)[4], 5);
}

#[test]
fn named_colors_are_their_rgb_words() {
    for (abgr, rgb) in [
        (Color32::BLACK, 0x000000),
        (Color32::RED, 0xff0000),
        (Color32::GREEN, 0x00ff00),
        (Color32::BLUE, 0x0000ff),
        (Color32::WHITE, 0xffffff),
        (Color32::YELLOW, 0xffff00),
        (Color32::CYAN, 0x00ffff),
        (Color32::MAGENTA, 0xff00ff),
        (Color32::PURPLE, 0x800080),
        (Color32::ORANGE, 0xffa500),
        (Color32::BROWN, 0xa52a2a),
        (Color32::PINK, 0xffc0cb),
        (Color32::GRAY, 0x808080),
        (Color32::LIGHT_GRAY, 0xd3d3d3),
        (Color32::DARK_GRAY, 0x404040),
    ] {
        assert_eq!(abgr, Color32::from_rgb(rgb).as_abgr());
        assert_eq!(Color32::from_abgr(abgr).as_rgb(), rgb);
    }
    assert_eq!(Color32::TRANSPARENT, Color32::from_rgba(0).as_abgr());
}
