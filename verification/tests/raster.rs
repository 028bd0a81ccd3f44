use chagaller::error::RenderError;
use chagaller::gallery::GalleryOpts;
use chagaller::raster::{thumbnail_crop, transform, Crop};
use image::{DynamicImage, GenericImageView};

fn opts(max_width: u32, max_height: u32, thumbnail_size: u32) -> GalleryOpts {
    GalleryOpts { max_width, max_height, thumbnail_size }
}

#[test]
fn thumbnail_crop_of_a_landscape_image() {
    assert_eq!(thumbnail_crop(4000, 3000), Crop { x: 500, y: 0, width: 3000, height: 3000 });
}

#[test]
fn thumbnail_crop_of_a_portrait_image() {
    assert_eq!(thumbnail_crop(3000, 4000), Crop { x: 0, y: 500, width: 3000, height: 3000 });
}

#[test]
fn thumbnail_crop_of_a_square_image_is_the_image() {
    assert_eq!(thumbnail_crop(640, 640), Crop { x: 0, y: 0, width: 640, height: 640 });
}

#[test]
fn thumbnail_crop_with_an_odd_excess_leaves_the_odd_pixel_behind() {
    assert_eq!(thumbnail_crop(5, 2), Crop { x: 1, y: 0, width: 2, height: 2 });
    assert_eq!(thumbnail_crop(2, 7), Crop { x: 0, y: 2, width: 2, height: 2 });
}

#[test]
fn thumbnail_crop_at_the_limits() {
    assert_eq!(thumbnail_crop(0, 0), Crop { x: 0, y: 0, width: 0, height: 0 });
    assert_eq!(thumbnail_crop(0, 9), Crop { x: 0, y: 4, width: 0, height: 0 });
    assert_eq!(
        thumbnail_crop(u32::MAX, 1),
        Crop { x: (u32::MAX - 1) / 2, y: 0, width: 1, height: 1 }
    );
}

#[test]
fn full_image_fits_the_bounds_and_keeps_its_proportions() {
    let source = DynamicImage::new_luma8(4000, 3000);
    let rasters = transform(&source, &opts(1600, 1600, 128)).unwrap();
    assert_eq!(rasters.full.dimensions(), (1600, 1200));
}

#[test]
fn thumbnail_is_a_square_of_the_requested_edge() {
    let source = DynamicImage::new_luma8(4000, 3000);
    let rasters = transform(&source, &opts(1600, 1600, 128)).unwrap();
    assert_eq!(rasters.thumbnail.dimensions(), (128, 128));
}

#[test]
fn portrait_image_is_bound_by_its_height() {
    let source = DynamicImage::new_rgb8(300, 400);
    let rasters = transform(&source, &opts(160, 160, 16)).unwrap();
    assert_eq!(rasters.full.dimensions(), (120, 160));
    assert_eq!(rasters.thumbnail.dimensions(), (16, 16));
}

#[test]
fn small_image_is_scaled_up_to_the_bounds() {
    let source = DynamicImage::new_rgb8(10, 5);
    let rasters = transform(&source, &opts(160, 160, 32)).unwrap();
    assert_eq!(rasters.full.dimensions(), (160, 80));
    assert_eq!(rasters.thumbnail.dimensions(), (32, 32));
}

#[test]
fn thumbnail_is_cut_from_the_middle() {
    let mut pixels = image::GrayImage::new(6, 2);
    for x in 0..6 {
        for y in 0..2 {
            pixels.put_pixel(x, y, image::Luma([if x == 2 || x == 3 { 255 } else { 0 }]));
        }
    }
    let source = DynamicImage::ImageLuma8(pixels);
    let rasters = transform(&source, &opts(6, 2, 2)).unwrap();
    assert_eq!(rasters.full.dimensions(), (6, 2));
    assert_eq!(rasters.thumbnail.dimensions(), (2, 2));
    assert!(rasters.thumbnail.to_luma8().pixels().all(|p| p.0[0] == 255));
}

#[test]
fn image_without_pixels_is_refused() {
    let source = DynamicImage::new_rgb8(0, 5);
    assert_eq!(transform(&source, &opts(160, 160, 16)).err(), Some(RenderError::EmptyImage));
    let source = DynamicImage::new_rgb8(5, 0);
    assert_eq!(transform(&source, &opts(160, 160, 16)).err(), Some(RenderError::EmptyImage));
}

#[test]
fn limit_of_zero_is_refused() {
    let source = DynamicImage::new_rgb8(4, 4);
    assert_eq!(transform(&source, &opts(0, 160, 16)).err(), Some(RenderError::EmptyBounds));
    assert_eq!(transform(&source, &opts(160, 0, 16)).err(), Some(RenderError::EmptyBounds));
    assert_eq!(transform(&source, &opts(160, 160, 0)).err(), Some(RenderError::EmptyBounds));
}

#[test]
fn image_without_pixels_is_reported_before_a_limit_of_zero() {
    let source = DynamicImage::new_rgb8(0, 0);
    assert_eq!(transform(&source, &opts(0, 0, 0)).err(), Some(RenderError::EmptyImage));
}

#[test]
fn size_beyond_the_address_space_is_refused() {
    let source = DynamicImage::new_rgb8(4, 4);
    assert_eq!(
        transform(&source, &opts(u32::MAX, u32::MAX, 16)).err(),
        Some(RenderError::TooLarge)
    );
    assert_eq!(
        transform(&source, &opts(16, 16, u32::MAX)).err(),
        Some(RenderError::TooLarge)
    );
}

#[test]
fn full_image_fits_reaches_a_bound_and_keeps_its_proportions() {
    let sides = [1u32, 2, 3, 5, 8, 13, 40, 97];
    let limits = [1u32, 2, 3, 7, 16, 50];
    for &width in &sides {
        for &height in &sides {
            let source = DynamicImage::new_luma8(width, height);
            for &max_width in &limits {
                for &max_height in &limits {
                    let rasters = transform(&source, &opts(max_width, max_height, 4)).unwrap();
                    let (w, h) = rasters.full.dimensions();
                    assert!(1 <= w && w <= max_width);
                    assert!(1 <= h && h <= max_height);
                    assert!(w == max_width || h == max_height);
                    let skew = (w as i64 * height as i64 - h as i64 * width as i64).abs();
                    assert!(skew <= (width + height) as i64);
                    assert_eq!(rasters.thumbnail.dimensions(), (4, 4));
                }
            }
        }
    }
}

#[test]
fn square_image_fills_a_square_bound() {
    for side in [1u32, 2, 3, 10, 33, 100] {
        let source = DynamicImage::new_luma8(side, side);
        for limit in [1u32, 2, 5, 64, 129] {
            let rasters = transform(&source, &opts(limit, limit, limit)).unwrap();
            assert_eq!(rasters.full.dimensions(), (limit, limit));
            assert_eq!(rasters.thumbnail.dimensions(), (limit, limit));
        }
    }
}
