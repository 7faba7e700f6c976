use tabula::geometry::Size;
use tabula::image::{ChannelLayout, Image, PixelDataError, RawImage, Texture};

#[test]
fn channel_counts() {
    assert_eq!(ChannelLayout::Luma.channels(), 1);
    assert_eq!(ChannelLayout::LumaAlpha.channels(), 2);
    assert_eq!(ChannelLayout::Rgb.channels(), 3);
    assert_eq!(ChannelLayout::Rgba.channels(), 4);
}

#[test]
fn raw_image_checks_dimensions() {
    let raw = RawImage::new(vec![0; 2 * 3 * 3], 2, 3, ChannelLayout::Rgb).unwrap();
    assert_eq!(raw.size(), Size::new(2, 3));
    assert_eq!(raw.layout(), ChannelLayout::Rgb);
    assert_eq!(raw.bytes().len(), 18);
    assert_eq!(
        RawImage::new(vec![0; 24], 2, 3, ChannelLayout::Rgb).err(),
        Some(PixelDataError::LengthMismatch)
    );
    assert_eq!(RawImage::new(vec![], 0, 3, ChannelLayout::Luma).err(), Some(PixelDataError::Empty));
    assert_eq!(RawImage::new(vec![], 3, 0, ChannelLayout::Luma).err(), Some(PixelDataError::Empty));
    assert!(RawImage::new(vec![7; 4], 2, 2, ChannelLayout::Luma).is_ok());
}

#[test]
fn image_loads_once() {
    let raw = RawImage::new(vec![0; 4 * 2 * 2], 2, 2, ChannelLayout::Rgba).unwrap();
    let mut image = Image::Unloaded(raw);
    assert!(image.pending_upload().is_some());
    assert_eq!(image.texture(), None);
    image.mark_loaded(7);
    assert_eq!(image.texture(), Some(Texture::new(7, 2, 2)));
    assert!(image.pending_upload().is_none());
    image.mark_loaded(9);
    assert_eq!(image.texture(), Some(Texture::new(7, 2, 2)));
    assert_eq!(image.size(), Size::new(2, 2));
}

#[test]
fn gl_formats_match_layouts() {
    assert_eq!(ChannelLayout::Luma.gl_format(), 0x1909);
    assert_eq!(ChannelLayout::LumaAlpha.gl_format(), 0x190A);
    assert_eq!(ChannelLayout::Rgb.gl_format(), 0x1907);
    assert_eq!(ChannelLayout::Rgba.gl_format(), 0x1908);
}
