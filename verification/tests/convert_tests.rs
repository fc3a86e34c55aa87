use psp_apis::convert::material::{
    Material, MaterialKey, color_word, material_file, material_key, material_statement, real_ambient, split_fields,
    trim_ascii,
};
use psp_apis::convert::model::{
    ColorAttrType, IndexFormat, ModelData, Primitive, VertexAttrType, indices_from_u16, indices_from_u32,
    model_file, model_vertex_type,
};
use psp_apis::convert::texture::{
    FormatType, abgr4444, abgr5551, abgr8888, bgr565, dimensions_supported, encode_abgr4444, encode_abgr5551,
    encode_abgr8888, encode_bgr565, is_power_of_two, texture_file, texture_file_from_image, texture_file_header,
    TextureFileError,
};
use psp_apis::sys::gu::{TexturePixelFormat, VertexType};

#[test]
fn pixel_encodings() {
    assert_eq!(abgr8888([0x11, 0x22, 0x33, 0x44]), 0x4433_2211);
    assert_eq!(abgr4444([255, 0, 255, 255]), 0xff0f);
    assert_eq!(abgr4444([128, 128, 128, 128]), 0x7777);
    assert_eq!(abgr5551([255, 255, 255, 255]), 0xffff);
    assert_eq!(abgr5551([255, 0, 0, 128]), 0x001f);
    assert_eq!(abgr5551([0, 0, 255, 129]), 0x8000 | (31 << 10));
    assert_eq!(bgr565([255, 0, 0]), 0x001f);
    assert_eq!(bgr565([0, 255, 0]), 0x07e0);
    assert_eq!(bgr565([0, 0, 255]), 0xf800);
}

#[test]
fn pixel_buffers_encode_each_pixel() {
    let px = [[1u8, 2, 3, 4], [255, 255, 255, 0]];
    assert_eq!(encode_abgr8888(&px), vec![0x0403_0201, 0x00ff_ffff]);
    assert_eq!(encode_abgr4444(&px), vec![0x0000, 0x0fff]);
    assert_eq!(encode_abgr5551(&px), vec![0x0000, 0x7fff]);
    assert_eq!(encode_bgr565(&[[255u8, 255, 255]]), vec![0xffff]);
    assert!(encode_bgr565(&[]).is_empty());
}

#[test]
fn texture_dimensions_must_be_powers_of_two() {
    assert!(is_power_of_two(1));
    assert!(is_power_of_two(512));
    assert!(!is_power_of_two(0));
    assert!(!is_power_of_two(480));
    assert!(dimensions_supported(256, 64));
    assert!(!dimensions_supported(256, 272));
}

#[test]
fn texture_file_header_layout() {
    let h = texture_file_header(FormatType::Abgr5551.pixel_format(), 256, 64);
    assert_eq!(h, vec![1, 0, 0, 0, 0, 0, 1, 0, 0, 64, 0, 0, 0]);
    assert_eq!(FormatType::Abgr8.pixel_format(), TexturePixelFormat::Psm8888);
    assert_eq!(FormatType::Bgr565.pixel_format(), TexturePixelFormat::Psm5650);
}

#[test]
fn model_vertex_type_combines_attributes() {
    let vt = model_vertex_type(
        IndexFormat::U16,
        Some(VertexAttrType::F32),
        Some(ColorAttrType::Rgba8),
        None,
        VertexAttrType::F32,
    );
    assert_eq!(vt.bits(), VertexType::INDEX_16BIT | VertexType::TEXTURE_32BITF | VertexType::COLOR_8888 | VertexType::VERTEX_32BITF);
    let vt = model_vertex_type(IndexFormat::U8, None, None, Some(VertexAttrType::I8), VertexAttrType::I16);
    assert_eq!(vt.bits(), VertexType::INDEX_8BIT | VertexType::NORMAL_8BIT | VertexType::VERTEX_16BIT);
}

#[test]
fn indices_are_little_endian() {
    assert_eq!(indices_from_u16(&[1, 0x0203]), vec![1, 0, 3, 2]);
    // 32-bit indices are written as 16-bit ones.
    assert_eq!(indices_from_u32(&[0x0102_0304, 7]), vec![4, 3, 7, 0]);
}

#[test]
fn model_file_interleaves_and_pads_attributes() {
    // 8-bit normals then 16-bit positions: normal (3 bytes), one padding
    // byte, position (6 bytes); two vertices.
    let vt = model_vertex_type(IndexFormat::U8, None, None, Some(VertexAttrType::I8), VertexAttrType::I16);
    let data = ModelData {
        texcoords: vec![],
        colors: vec![],
        normals: vec![1, 2, 3, 4, 5, 6],
        positions: vec![10, 11, 12, 13, 14, 15, 20, 21, 22, 23, 24, 25],
        use_texcoords: false,
        use_colors: false,
        use_normals: true,
    };
    let f = model_file(Primitive::Triangles, vt, &data, &[0, 1]);
    let bits = vt.bits() as u32;
    let mut expected = vec![3, 0, 0, 0];
    expected.extend_from_slice(&bits.to_le_bytes());
    expected.extend_from_slice(&[20, 0, 0, 0, 2, 0, 0, 0]);
    expected.extend_from_slice(&[1, 2, 3, 0, 10, 11, 12, 13, 14, 15]);
    expected.extend_from_slice(&[4, 5, 6, 0, 20, 21, 22, 23, 24, 25]);
    expected.extend_from_slice(&[0, 1]);
    assert_eq!(f, expected);
}

#[test]
fn material_file_layout() {
    let m = Material {
        ambient: Some(color_word(255, 0, 0)),
        diffuse: None,
        specular: Some(0x1234_5678),
        specular_coeff: Some(0x4120_0000),
        alpha: 0x80,
    };
    assert_eq!(color_word(255, 0, 0), 0xff00_00ff);
    assert_eq!(real_ambient(0x80), 0xffff_ff80);
    let f = material_file(&m);
    assert_eq!(f, vec![
        1, 0, 0x80, 0xff, 0xff, 0xff,
        1, 0, 0xff, 0, 0, 0xff,
        0, 0, 0, 0, 0, 0,
        1, 0, 0x78, 0x56, 0x34, 0x12,
        1, 0, 0, 0, 0x20, 0x41,
    ]);
}

#[test]
fn material_keys() {
    assert_eq!(material_key(b"Ka"), Some(MaterialKey::Ambient));
    assert_eq!(material_key(b"Kd"), Some(MaterialKey::Diffuse));
    assert_eq!(material_key(b"Ks"), Some(MaterialKey::Specular));
    assert_eq!(material_key(b"Ns"), Some(MaterialKey::SpecularCoeff));
    assert_eq!(material_key(b"d"), Some(MaterialKey::Dissolve));
    assert_eq!(material_key(b"Tr"), Some(MaterialKey::Transparency));
    assert_eq!(material_key(b"newmtl"), None);
    assert_eq!(material_key(b"K"), None);
    assert_eq!(material_key(b""), None);
}

#[test]
fn texture_file_is_header_then_texels() {
    let rgba = [[1u8, 2, 3, 4], [5, 6, 7, 8]];
    let rgb = [[255u8, 0, 0], [0, 0, 255]];
    let f = texture_file(FormatType::Abgr8, 2, 1, &rgba, &rgb).unwrap();
    let mut expected = texture_file_header(TexturePixelFormat::Psm8888, 2, 1);
    expected.extend_from_slice(&0x0403_0201u32.to_ne_bytes());
    expected.extend_from_slice(&0x0807_0605u32.to_ne_bytes());
    assert_eq!(f, expected);
    let g = texture_file(FormatType::Bgr565, 2, 1, &rgba, &rgb).unwrap();
    let mut expected = texture_file_header(TexturePixelFormat::Psm5650, 2, 1);
    expected.extend_from_slice(&0x001fu16.to_ne_bytes());
    expected.extend_from_slice(&0xf800u16.to_ne_bytes());
    assert_eq!(g, expected);
    assert_eq!(texture_file(FormatType::Abgr4, 2, 1, &rgba, &rgb).unwrap().len(), 13 + 4);
    assert!(texture_file(FormatType::Abgr8, 3, 1, &rgba, &rgb).is_none());
}

fn png_bytes(width: u32, height: u32, pixels: Vec<u8>) -> Vec<u8> {
    let img = image::RgbaImage::from_raw(width, height, pixels).unwrap();
    let mut out = std::io::Cursor::new(Vec::new());
    img.write_to(&mut out, image::ImageFormat::Png).unwrap();
    out.into_inner()
}

#[test]
fn texture_file_from_png() {
    let png = png_bytes(2, 1, vec![1, 2, 3, 4, 5, 6, 7, 8]);
    let f = texture_file_from_image(FormatType::Abgr8, "pixels.png", &png).unwrap();
    let mut expected = texture_file_header(TexturePixelFormat::Psm8888, 2, 1);
    expected.extend_from_slice(&0x0403_0201u32.to_ne_bytes());
    expected.extend_from_slice(&0x0807_0605u32.to_ne_bytes());
    assert_eq!(f, expected);
    let g = texture_file_from_image(FormatType::Bgr565, "pixels.PNG", &png).unwrap();
    assert_eq!(g.len(), 13 + 4);
    let odd = png_bytes(3, 1, vec![0; 12]);
    assert_eq!(texture_file_from_image(FormatType::Abgr8, "odd.png", &odd), Err(TextureFileError::UnsupportedDimensions));
    assert_eq!(texture_file_from_image(FormatType::Abgr8, "junk.png", b"not an image"), Err(TextureFileError::Undecodable));
    // The format comes from the file name's extension, as when opening it.
    assert_eq!(texture_file_from_image(FormatType::Abgr8, "pixels", &png), Err(TextureFileError::Undecodable));
    assert_eq!(texture_file_from_image(FormatType::Abgr8, "pixels.qqq", &png), Err(TextureFileError::Undecodable));
}

fn field_strings(parts: &[Vec<u8>]) -> Vec<String> {
    parts.iter().map(|p| String::from_utf8(p.clone()).unwrap()).collect()
}

#[test]
fn material_lines_split_into_statements() {
    let (k, parts) = material_statement(b"  Kd 0.5 0.25 1\r").unwrap();
    assert_eq!(k, MaterialKey::Diffuse);
    assert_eq!(field_strings(&parts), vec!["Kd", "0.5", "0.25", "1"]);
    // Every single space ends a field.
    let (_, parts) = material_statement(b"Ns  10").unwrap();
    assert_eq!(field_strings(&parts), vec!["Ns", "", "10"]);
    assert!(material_statement(b"   \t").is_none());
    assert!(material_statement(b"").is_none());
    assert!(material_statement(b"newmtl red").is_none());
    assert_eq!(trim_ascii(b" \tx y \n"), b"x y".to_vec());
    assert_eq!(field_strings(&split_fields(b"a b")), vec!["a", "b"]);
    assert_eq!(field_strings(&split_fields(b"")), vec![""]);
}
