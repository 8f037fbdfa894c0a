use bettershot::{crop_image, CropRegion};

#[test]
fn test_crop_region_clamped_within_bounds() {
    let region = CropRegion::clamped(100, 100, 200, 200, 1920, 1080);

    assert_eq!(region.x, 100);
    assert_eq!(region.y, 100);
    assert_eq!(region.width, 200);
    assert_eq!(region.height, 200);
}

#[test]
fn test_crop_region_clamped_exceeds_bounds() {
    let region = CropRegion::clamped(1800, 1000, 500, 500, 1920, 1080);

    assert_eq!(region.x, 1800);
    assert_eq!(region.y, 1000);
    assert_eq!(region.width, 120);
    assert_eq!(region.height, 80);
}

#[test]
fn test_crop_region_clamped_x_y_exceed_bounds() {
    let region = CropRegion::clamped(2000, 2000, 100, 100, 1920, 1080);

    assert_eq!(region.x, 1919);
    assert_eq!(region.y, 1079);
    assert_eq!(region.width, 1);
    assert_eq!(region.height, 1);
}

#[test]
fn test_crop_region_is_valid() {
    let valid_region = CropRegion {
        x: 0,
        y: 0,
        width: 100,
        height: 100,
    };
    assert!(valid_region.is_valid());

    let invalid_region_zero_width = CropRegion {
        x: 0,
        y: 0,
        width: 0,
        height: 100,
    };
    assert!(!invalid_region_zero_width.is_valid());

    let invalid_region_zero_height = CropRegion {
        x: 0,
        y: 0,
        width: 100,
        height: 0,
    };
    assert!(!invalid_region_zero_height.is_valid());
}

#[test]
fn test_crop_region_at_origin() {
    let region = CropRegion::clamped(0, 0, 100, 100, 1920, 1080);

    assert_eq!(region.x, 0);
    assert_eq!(region.y, 0);
    assert_eq!(region.width, 100);
    assert_eq!(region.height, 100);
    assert!(region.is_valid());
}

#[test]
fn test_crop_region_full_image() {
    let region = CropRegion::clamped(0, 0, 1920, 1080, 1920, 1080);

    assert_eq!(region.x, 0);
    assert_eq!(region.y, 0);
    assert_eq!(region.width, 1920);
    assert_eq!(region.height, 1080);
    assert!(region.is_valid());
}

#[test]
fn clamped_region_stays_inside_image() {
    let cases: [(u32, u32, u32, u32, u32, u32); 5] = [
        (0, 0, u32::MAX, u32::MAX, 1, 1),
        (5, 7, 100, 100, 10, 10),
        (u32::MAX, u32::MAX, u32::MAX, u32::MAX, 640, 480),
        (639, 0, 2, 480, 640, 480),
        (3, 4, 0, 0, 8, 8),
    ];
    for (x, y, w, h, iw, ih) in cases {
        let r = CropRegion::clamped(x, y, w, h, iw, ih);
        assert!(r.x < iw);
        assert!(r.y < ih);
        assert!(r.x as u64 + r.width as u64 <= iw as u64);
        assert!(r.y as u64 + r.height as u64 <= ih as u64);
    }
}

#[test]
fn clamp_keeps_region_inside_image() {
    let r = CropRegion::clamped(10, 20, 30, 40, 100, 100);
    assert_eq!((r.x, r.y, r.width, r.height), (10, 20, 30, 40));
}

#[test]
fn clamp_moves_origin_past_one_edge_only() {
    let r = CropRegion::clamped(2000, 100, 100, 100, 1920, 1080);
    assert_eq!((r.x, r.y, r.width, r.height), (1919, 100, 1, 100));
}

#[test]
fn clamp_on_empty_image_is_invalid() {
    let r = CropRegion::clamped(5, 5, 10, 10, 0, 0);
    assert_eq!((r.x, r.y, r.width, r.height), (0, 0, 0, 0));
    assert!(!r.is_valid());
}

#[test]
fn crop_image_cuts_clamped_region() {
    let img = image::DynamicImage::new_rgba8(1920, 1080);
    let region = CropRegion {
        x: 1800,
        y: 1000,
        width: 500,
        height: 500,
    };
    let out = crop_image(&img, region).unwrap();
    assert_eq!(out.width(), 120);
    assert_eq!(out.height(), 80);
}

#[test]
fn crop_image_takes_pixels_from_clamped_origin() {
    let mut buf = image::RgbaImage::new(40, 30);
    buf.put_pixel(35, 25, image::Rgba([1, 2, 3, 4]));
    buf.put_pixel(39, 29, image::Rgba([9, 8, 7, 6]));
    let img = image::DynamicImage::ImageRgba8(buf);
    let region = CropRegion {
        x: 35,
        y: 25,
        width: 100,
        height: 100,
    };
    let out = crop_image(&img, region).unwrap().to_rgba8();
    assert_eq!(out.dimensions(), (5, 5));
    assert_eq!(out.get_pixel(0, 0), &image::Rgba([1, 2, 3, 4]));
    assert_eq!(out.get_pixel(4, 4), &image::Rgba([9, 8, 7, 6]));
    assert_eq!(out.get_pixel(1, 0), &image::Rgba([0, 0, 0, 0]));
}

#[test]
fn crop_image_refuses_empty_region() {
    let img = image::DynamicImage::new_rgba8(1920, 1080);
    let region = CropRegion {
        x: 10,
        y: 20,
        width: 0,
        height: 5,
    };
    let err = crop_image(&img, region).unwrap_err();
    assert_eq!(err, "Invalid crop region: x=10, y=20, w=0, h=5 (image: 1920x1080)");
}
