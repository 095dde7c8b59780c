use std::io::Cursor;
use youtube_terminal::imagery::{Pixels, Rgb, ThumbnailCache, ThumbnailError};
use youtube_terminal::models::{ItemType, ThumbnailKey};

fn key(id: &str) -> ThumbnailKey {
    ThumbnailKey { item_type: ItemType::Video, item_id: id.to_string() }
}

fn png_bytes(width: u32, height: u32, colour: [u8; 3]) -> Vec<u8> {
    let img = image::RgbImage::from_pixel(width, height, image::Rgb(colour));
    let mut out = Cursor::new(Vec::new());
    image::DynamicImage::ImageRgb8(img)
        .write_to(&mut out, image::ImageFormat::Png)
        .unwrap();
    out.into_inner()
}

#[test]
fn test_thumbnail_cache_new() {
    let cache = ThumbnailCache::new();
    let key = ThumbnailKey { item_type: ItemType::Video, item_id: "test123".to_string() };
    assert!(cache.get(&key).is_none());
}

#[test]
fn test_render_halfblock_empty_image() {
    // A tiny 2x2 black image.
    let img = Pixels { width: 2, height: 2, rgba: vec![0, 0, 0, 255, 0, 0, 0, 255, 0, 0, 0, 255, 0, 0, 0, 255] };
    let cells = ThumbnailCache::render_halfblock(&img, 2, 1);
    assert_eq!(cells[0][0].symbol.to_string(), "\u{2580}");
}

#[test]
fn halfblock_pairs_pixel_rows() {
    // Three pixel rows: red, green, blue, one pixel wide.
    let img = Pixels {
        width: 1,
        height: 3,
        rgba: vec![255, 0, 0, 255, 0, 255, 0, 255, 0, 0, 255, 255],
    };
    let cells = ThumbnailCache::render_halfblock(&img, 5, 5);
    assert_eq!(cells.len(), 2);
    assert_eq!(cells[0].len(), 1);
    assert_eq!(cells[0][0].fg, Rgb { red: 255, green: 0, blue: 0 });
    assert_eq!(cells[0][0].bg, Some(Rgb { red: 0, green: 255, blue: 0 }));
    assert_eq!(cells[1][0].fg, Rgb { red: 0, green: 0, blue: 255 });
    assert_eq!(cells[1][0].bg, None);
}

#[test]
fn halfblock_stays_inside_the_area() {
    let img = Pixels { width: 4, height: 4, rgba: vec![7; 64] };
    let cells = ThumbnailCache::render_halfblock(&img, 3, 1);
    assert_eq!(cells.len(), 1);
    assert_eq!(cells[0].len(), 3);
}

#[test]
fn loaded_thumbnail_is_scaled_and_found() {
    let mut cache = ThumbnailCache::new();
    let data = png_bytes(2, 2, [10, 20, 30]);
    assert_eq!(cache.load(&key("abc"), &data, 4, 1), Ok(()));
    let img = cache.get(&key("abc")).expect("cached");
    assert_eq!(img.width, 4);
    assert_eq!(img.height, 2);
    assert_eq!(img.rgba.len(), 4 * 4 * 2);
    assert_eq!(&img.rgba[0..4], &[10, 20, 30, 255]);
    assert!(cache.get_detail(&key("abc")).is_none());
    assert!(cache.get_avatar(&key("abc")).is_none());
    assert!(cache.get(&key("other")).is_none());
}

#[test]
fn reloading_a_key_replaces_its_picture() {
    let mut cache = ThumbnailCache::new();
    cache.load(&key("abc"), &png_bytes(1, 1, [1, 2, 3]), 1, 1).unwrap();
    cache.load(&key("abc"), &png_bytes(1, 1, [9, 8, 7]), 1, 1).unwrap();
    let img = cache.get(&key("abc")).unwrap();
    assert_eq!(&img.rgba[0..4], &[9, 8, 7, 255]);
}

#[test]
fn undecodable_bytes_are_refused() {
    let mut cache = ThumbnailCache::new();
    assert_eq!(
        cache.load(&key("abc"), b"not an image", 4, 1),
        Err(ThumbnailError::Undecodable)
    );
    assert!(cache.get(&key("abc")).is_none());
}

#[test]
fn detail_and_avatar_sizes() {
    let mut cache = ThumbnailCache::new();
    let data = png_bytes(3, 3, [50, 60, 70]);
    cache.load_detail(&key("d"), &data, 6, 2).unwrap();
    cache.load_avatar(&key("a"), &data, 3).unwrap();
    let d = cache.get_detail(&key("d")).unwrap();
    assert_eq!((d.width, d.height), (6, 4));
    let a = cache.get_avatar(&key("a")).unwrap();
    assert_eq!((a.width, a.height), (3, 6));
    assert!(cache.get(&key("d")).is_none());
}

#[test]
fn stored_pictures_are_found_under_their_key() {
    let mut cache = ThumbnailCache::new();
    let img = Pixels { width: 1, height: 1, rgba: vec![4, 5, 6, 255] };
    assert_eq!(cache.store_thumbnail(&key("a"), Some(img)), Ok(()));
    assert_eq!(cache.get(&key("a")).unwrap().rgba, vec![4, 5, 6, 255]);
    assert_eq!(cache.store_thumbnail(&key("b"), None), Err(ThumbnailError::Undecodable));
    assert!(cache.get(&key("b")).is_none());

    let other = Pixels { width: 1, height: 2, rgba: vec![1; 8] };
    cache.store_detail(&key("a"), Some(other)).unwrap();
    assert_eq!(cache.get_detail(&key("a")).unwrap().height, 2);
    assert_eq!(cache.get(&key("a")).unwrap().height, 1);
    let avatar = Pixels { width: 2, height: 4, rgba: vec![9; 32] };
    cache.store_avatar(&key("c"), Some(avatar)).unwrap();
    assert_eq!(cache.get_avatar(&key("c")).unwrap().width, 2);
    assert_eq!(cache.store_avatar(&key("d"), None), Err(ThumbnailError::Undecodable));
}
