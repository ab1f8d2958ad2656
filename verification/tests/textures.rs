use egui_citro3d::texmap::{TexId, TexMap};
use egui_citro3d::texture::{
    configure_font_texenv, configure_rgba8_texenv, configure_texenv, egui_filter_to_3ds,
    CombineFunc, GpuFilter, ImgDat, TexAndData, TexEnvSource, TexFormat, Texture, TextureFilter,
};

#[test]
fn rgba_bytes_are_native_order() {
    let d = ImgDat::from(vec![0x1122_3344u32, 0xA0B0_C0D0u32]);
    let mut expected = Vec::new();
    expected.extend_from_slice(&0x1122_3344u32.to_ne_bytes());
    expected.extend_from_slice(&0xA0B0_C0D0u32.to_ne_bytes());
    assert_eq!(d.bytes(), &expected[..]);
    assert_eq!(&*d, &expected[..]);
    assert_eq!(d.bytes().len(), 8);
}

#[test]
fn alpha_bytes_are_unchanged() {
    let d = ImgDat::from(vec![1u8, 2, 3]);
    assert_eq!(d.bytes(), &[1u8, 2, 3][..]);
    let empty = ImgDat::from(Vec::<u32>::new());
    assert!(empty.bytes().is_empty());
}

#[test]
fn texenv_follows_data_kind() {
    let font = configure_font_texenv();
    assert_eq!(font.rgb.source0, TexEnvSource::PrimaryColor);
    assert_eq!(font.rgb.func, CombineFunc::Replace);
    assert_eq!(font.alpha.source0, TexEnvSource::Texture0);
    assert_eq!(font.alpha.source1, Some(TexEnvSource::PrimaryColor));
    assert_eq!(font.alpha.func, CombineFunc::Modulate);
    let rgba = configure_rgba8_texenv();
    assert_eq!(rgba.rgb.source0, TexEnvSource::Texture0);
    assert_eq!(rgba.alpha, font.alpha);
    assert_eq!(configure_texenv(&ImgDat::Alpha8(vec![0])), font);
    assert_eq!(configure_texenv(&ImgDat::Rgba8(vec![0])), rgba);
    let t = TexAndData::new(Texture { width: 8, height: 8, format: TexFormat::A8 }, ImgDat::Alpha8(vec![0; 64]));
    assert_eq!(t.texenv(), font);
    assert_eq!(t.tex().width, 8);
    assert_eq!(t.data().bytes().len(), 64);
}

#[test]
fn filter_mapping() {
    assert_eq!(egui_filter_to_3ds(TextureFilter::Nearest), GpuFilter::Nearest);
    assert_eq!(egui_filter_to_3ds(TextureFilter::Linear), GpuFilter::Linear);
}

#[test]
fn texmap_insert_get_free() {
    let mut m: TexMap<u32> = TexMap::new();
    assert_eq!(m.insert(TexId::Managed(0), 10), None);
    assert_eq!(m.insert(TexId::User(0), 20), None);
    assert_eq!(m.get(TexId::Managed(0)), Some(&10));
    assert_eq!(m.get(TexId::User(0)), Some(&20));
    assert_eq!(m.insert(TexId::Managed(0), 11), Some(10));
    assert_eq!(m.insert(TexId::Managed(5), 50), None);
    m.free_textures(&vec![TexId::Managed(0), TexId::User(7)]);
    assert_eq!(m.get(TexId::Managed(0)), None);
    assert_eq!(m.get(TexId::User(0)), Some(&20));
    assert_eq!(m.get(TexId::Managed(5)), Some(&50));
    assert_eq!(m.remove(TexId::User(0)), Some(20));
    assert_eq!(m.remove(TexId::User(0)), None);
}
