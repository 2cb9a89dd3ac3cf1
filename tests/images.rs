use obamify::imaging::{CropScale, SourceImg};
use obamify::pixels::{GridPixel, WeightedPixel};
use obamify::settings::{get_images, load_weights, Algorithm, GenerationSettings, PrepareError};

fn patterned(w: u32, h: u32) -> SourceImg {
    let mut data = Vec::new();
    for y in 0..h {
        for x in 0..w {
            data.push((x % 256) as u8);
            data.push((y % 256) as u8);
            data.push(((x + y) % 256) as u8);
        }
    }
    SourceImg::from_raw(w, h, data).unwrap()
}

fn png_of(img: &SourceImg) -> Vec<u8> {
    let buf = image::RgbImage::from_raw(img.width, img.height, img.data.clone()).unwrap();
    let mut out = std::io::Cursor::new(Vec::new());
    buf.write_to(&mut out, image::ImageFormat::Png).unwrap();
    out.into_inner()
}

#[test]
fn from_raw_checks_length() {
    assert!(SourceImg::from_raw(2, 2, vec![0; 12]).is_some());
    assert!(SourceImg::from_raw(2, 2, vec![0; 11]).is_none());
    assert!(SourceImg::from_raw(0, 5, vec![]).is_some());
}

#[test]
fn crop_left_middle_square() {
    let img = patterned(400, 200);
    let cs = CropScale { x: -1000, y: 0, scale: 2000 };
    let out = cs.apply(&img, 100);
    assert_eq!(out.dimensions(), (100, 100));
    for y in 0..100u32 {
        for x in 0..100u32 {
            assert_eq!(out.pixel(x, y), img.pixel(x, y + 50));
        }
    }
}

#[test]
fn crop_right_bottom() {
    let img = patterned(300, 200);
    let cs = CropScale { x: 5000, y: 1000, scale: 1000 };
    let out = cs.apply(&img, 200);
    assert_eq!(out.dimensions(), (200, 200));
    assert_eq!(out.pixel(0, 0), img.pixel(100, 0));
    assert_eq!(out.pixel(199, 199), img.pixel(299, 199));
}

#[test]
fn apply_gives_requested_side() {
    let img = patterned(300, 180);
    for (cs, side) in [
        (CropScale::identity(), 64u32),
        (CropScale { x: 300, y: -700, scale: 2500 }, 128),
        (CropScale { x: 0, y: 0, scale: 10 }, 17),
        (CropScale { x: 0, y: 0, scale: 4_000_000 }, 3),
    ] {
        let out = cs.apply(&img, side);
        assert_eq!(out.dimensions(), (side, side));
        assert_eq!(out.data.len(), (side * side * 3) as usize);
    }
}

#[test]
fn resize_changes_pixels() {
    let img = patterned(200, 200);
    let out = CropScale::identity().apply(&img, 100);
    assert_eq!(out.dimensions(), (100, 100));
    assert_ne!(out.pixel(99, 0), img.pixel(99, 0));
}

#[test]
fn identity_keeps_square_image() {
    let img = patterned(50, 50);
    let out = CropScale::identity().apply(&img, 50);
    assert_eq!(out.data, img.data);
}

#[test]
fn default_settings() {
    let id = uuid::Uuid::new_v4();
    let s = GenerationSettings::default(id, "pic".to_string());
    assert_eq!(s.id, id);
    assert_eq!(s.name, "pic");
    assert_eq!(s.sidelen, 128);
    assert_eq!(s.proximity_importance, 13);
    assert!(matches!(s.algorithm, Algorithm::Genetic));
    assert!(s.custom_target.is_none());
    assert_eq!(s.target_crop_scale, CropScale::identity());
    assert_eq!(s.source_crop_scale, CropScale::identity());
}

#[test]
fn images_from_bundled_target() {
    let s = GenerationSettings::default(uuid::Uuid::new_v4(), "pic".to_string());
    let target = patterned(256, 256);
    let weights = patterned(256, 256);
    let (src, tgt) = get_images(patterned(200, 200), &s, &png_of(&target), &png_of(&weights)).unwrap();
    assert_eq!(src.len(), 16384);
    assert_eq!(tgt.len(), 16384);
    assert!(tgt.iter().all(|p| (0..=255).contains(&p.weight)));
    for (i, p) in src.iter().enumerate() {
        assert_eq!(p.linear_index(128), i);
    }
    assert_eq!(tgt[130].coords(), (2, 1));
    let (t, w) = s.get_target(&png_of(&target), &png_of(&weights)).unwrap();
    assert_eq!(t.dimensions(), (128, 128));
    assert_eq!(w.len(), 16384);
    assert_eq!(tgt[5].rgb_tuple(), {
        let p = t.pixel(5, 0);
        (p[0], p[1], p[2])
    });
    assert_eq!(tgt[5].weight, w[5]);
}

#[test]
fn custom_target_has_uniform_weights() {
    let mut s = GenerationSettings::default(uuid::Uuid::new_v4(), "pic".to_string());
    s.sidelen = 32;
    s.set_raw_target(patterned(64, 40));
    let raw = s.get_raw_target(b"not an image").unwrap();
    assert_eq!(raw.dimensions(), (64, 40));
    let (t, w) = s.get_target(b"not an image", b"nor this").unwrap();
    assert_eq!(t.dimensions(), (32, 32));
    assert_eq!(w, vec![255i64; 1024]);
}

#[test]
fn undecodable_bundled_target_is_an_error() {
    let s = GenerationSettings::default(uuid::Uuid::new_v4(), "pic".to_string());
    assert!(matches!(s.get_target(b"garbage", b"garbage"), Err(PrepareError::Decode)));
    assert!(get_images(patterned(10, 10), &s, b"garbage", b"garbage").is_err());
}

#[test]
fn weights_from_red_channel() {
    let img = SourceImg::from_raw(2, 2, vec![1, 9, 9, 2, 9, 9, 3, 9, 9, 255, 0, 0]).unwrap();
    assert_eq!(load_weights(img), vec![1, 2, 3, 255]);
}

#[test]
fn grid_pixel_accessors() {
    let p = GridPixel::new(3, 7, [10, 20, 30]);
    assert_eq!(p.coords(), (3, 7));
    assert_eq!(p.rgb_tuple(), (10, 20, 30));
    assert_eq!(p.linear_index(10), 73);
    let w = WeightedPixel { pixel: p, weight: 5 };
    assert_eq!(w.coords(), (3, 7));
    assert_eq!(w.rgb_tuple(), (10, 20, 30));
    let q = GridPixel::new(65536 + 4, 1, [0, 0, 0]);
    assert_eq!(q.x, 4);
}
