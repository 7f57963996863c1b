use rtorchdist::{
    center_crop, model_path, normalize, to_planar, PipelineError, Rgb8Image, INPUT_EDGE,
    RESIZE_EDGE,
};
use std::io::Cursor;

fn encode(width: u32, height: u32, pixels: Vec<u8>, format: image::ImageOutputFormat) -> Vec<u8> {
    let img = image::RgbImage::from_raw(width, height, pixels).unwrap();
    let mut out = Cursor::new(Vec::new());
    img.write_to(&mut out, format).unwrap();
    out.into_inner()
}

fn solid(width: u32, height: u32, rgb: [u8; 3]) -> Vec<u8> {
    let mut v = Vec::new();
    for _ in 0..width * height {
        v.extend_from_slice(&rgb);
    }
    v
}

const SIDE: usize = INPUT_EDGE as usize;
const PLANE: usize = SIDE * SIDE;

#[test]
fn from_pixels_checks_the_length() {
    assert!(Rgb8Image::from_pixels(2, 2, vec![0; 12]).is_some());
    assert!(Rgb8Image::from_pixels(2, 2, vec![0; 11]).is_none());
    assert!(Rgb8Image::from_pixels(2, 2, vec![0; 13]).is_none());
    assert!(Rgb8Image::from_pixels(0, 5, Vec::new()).is_some());
    let img = Rgb8Image::from_pixels(3, 1, (0..9).collect()).unwrap();
    assert_eq!((img.width(), img.height()), (3, 1));
    assert_eq!(img.pixels(), &(0..9).collect::<Vec<u8>>());
}

#[test]
fn center_crop_keeps_the_middle() {
    // 4 x 4 image whose pixel (x, y) is (x, y, 10 * y + x)
    let mut px = Vec::new();
    for y in 0..4u8 {
        for x in 0..4u8 {
            px.extend_from_slice(&[x, y, 10 * y + x]);
        }
    }
    let img = Rgb8Image::from_pixels(4, 4, px).unwrap();
    let c = center_crop(&img, 2);
    assert_eq!((c.width(), c.height()), (2, 2));
    assert_eq!(c.pixels(), &vec![1, 1, 11, 2, 1, 12, 1, 2, 21, 2, 2, 22]);
}

#[test]
fn center_crop_offsets_round_down() {
    // 5 x 3 image, crop 2: offsets (5 - 2) / 2 = 1 and (3 - 2) / 2 = 0
    let mut px = Vec::new();
    for y in 0..3u8 {
        for x in 0..5u8 {
            px.extend_from_slice(&[x, y, 0]);
        }
    }
    let img = Rgb8Image::from_pixels(5, 3, px).unwrap();
    let c = center_crop(&img, 2);
    assert_eq!(c.pixels(), &vec![1, 0, 0, 2, 0, 0, 1, 1, 0, 2, 1, 0]);
    let whole = center_crop(&img, 3);
    assert_eq!(whole.pixels()[..3], [1, 0, 0]);
}

#[test]
fn planar_layout_groups_channels() {
    let img = Rgb8Image::from_pixels(2, 1, vec![1, 2, 3, 4, 5, 6]).unwrap();
    assert_eq!(to_planar(&img), vec![1, 4, 2, 5, 3, 6]);
    let img = Rgb8Image::from_pixels(1, 2, vec![1, 2, 3, 4, 5, 6]).unwrap();
    assert_eq!(to_planar(&img), vec![1, 4, 2, 5, 3, 6]);
    let empty = Rgb8Image::from_pixels(0, 0, Vec::new()).unwrap();
    assert_eq!(to_planar(&empty), Vec::<u8>::new());
}

#[test]
fn non_images_are_decode_errors() {
    assert_eq!(normalize(&[]).err(), Some(PipelineError::DecodeError));
    assert_eq!(normalize(b"definitely not an image").err(), Some(PipelineError::DecodeError));
    assert_eq!(normalize(b"\x89PNG\r\n\x1a\n\0\0\0").err(), Some(PipelineError::DecodeError));
    let png = encode(4, 4, solid(4, 4, [1, 2, 3]), image::ImageOutputFormat::Png);
    assert_eq!(normalize(&png[..png.len() / 2]).err(), Some(PipelineError::DecodeError));
}

#[test]
fn solid_image_normalizes_to_constant_planes() {
    let png = encode(10, 7, solid(10, 7, [10, 200, 30]), image::ImageOutputFormat::Png);
    let t = normalize(&png).unwrap();
    assert_eq!(t.shape(), vec![1, 3, 224, 224]);
    let levels = t.levels();
    assert_eq!(levels.len(), 3 * PLANE);
    assert!(levels[..PLANE].iter().all(|&v| v == 10));
    assert!(levels[PLANE..2 * PLANE].iter().all(|&v| v == 200));
    assert!(levels[2 * PLANE..].iter().all(|&v| v == 30));
}

#[test]
fn corners_survive_resize_and_crop() {
    // 2 x 2: red, green / blue, white
    let px = vec![255, 0, 0, 0, 255, 0, 0, 0, 255, 255, 255, 255];
    let bmp = encode(2, 2, px, image::ImageOutputFormat::Bmp);
    let levels = normalize(&bmp).unwrap().into_levels();
    let at = |c: usize, y: usize, x: usize| levels[c * PLANE + y * SIDE + x];
    assert_eq!([at(0, 0, 0), at(1, 0, 0), at(2, 0, 0)], [255, 0, 0]);
    assert_eq!([at(0, 0, SIDE - 1), at(1, 0, SIDE - 1), at(2, 0, SIDE - 1)], [0, 255, 0]);
    assert_eq!([at(0, SIDE - 1, 0), at(1, SIDE - 1, 0), at(2, SIDE - 1, 0)], [0, 0, 255]);
    let last = SIDE - 1;
    assert_eq!([at(0, last, last), at(1, last, last), at(2, last, last)], [255, 255, 255]);
}

#[test]
fn large_and_small_images_give_the_same_shape() {
    for (w, h) in [(1, 1), (300, 200), (RESIZE_EDGE, RESIZE_EDGE), (50, 400)] {
        let mut px = Vec::new();
        for i in 0..w * h {
            px.extend_from_slice(&[(i % 251) as u8, (i % 13) as u8, 255]);
        }
        let png = encode(w, h, px, image::ImageOutputFormat::Png);
        let t = normalize(&png).unwrap();
        assert_eq!(t.shape(), vec![1, 3, 224, 224]);
        assert_eq!(t.levels().len(), 3 * PLANE);
        assert!(t.levels()[2 * PLANE..].iter().all(|&v| v == 255));
    }
}

#[test]
fn grayscale_images_become_rgb() {
    let img = image::GrayImage::from_raw(3, 3, vec![77; 9]).unwrap();
    let mut out = Cursor::new(Vec::new());
    img.write_to(&mut out, image::ImageOutputFormat::Png).unwrap();
    let t = normalize(out.get_ref()).unwrap();
    assert!(t.levels().iter().all(|&v| v == 77));
}

#[test]
fn model_path_defaults_when_unset() {
    assert_eq!(model_path(None), "model/resnet34.ot");
    assert_eq!(model_path(Some("/srv/m.ot".to_string())), "/srv/m.ot");
}

#[test]
fn jpeg_images_normalize() {
    let jpeg = encode(40, 30, solid(40, 30, [128, 128, 128]), image::ImageOutputFormat::Jpeg(95));
    let t = normalize(&jpeg).unwrap();
    assert_eq!(t.shape(), vec![1, 3, 224, 224]);
    assert!(t.levels().iter().all(|&v| (126..=130).contains(&v)));
    assert_eq!(normalize(&jpeg).unwrap().into_levels(), t.into_levels());
}
