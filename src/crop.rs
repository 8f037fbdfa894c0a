//! Crop regions and cropping of decoded images.

use vstd::prelude::*;
use crate::text::{decimal, push_decimal};
use crate::utils::AppResult;

verus! {

/// `a - b`, or zero where `b > a`.
pub open spec fn sat_sub(a: u32, b: u32) -> u32 {
    if b <= a {
        (a - b) as u32
    } else {
        0
    }
}

pub open spec fn min_u32(a: u32, b: u32) -> u32 {
    if a <= b {
        a
    } else {
        b
    }
}

/// Region coordinates for cropping, in pixels.
#[derive(Debug, Clone, Copy)]
pub struct CropRegion {
    pub x: u32,
    pub y: u32,
    pub width: u32,
    pub height: u32,
}

impl CropRegion {
    /// The region `(x, y, width, height)` clamped to an image of
    /// `img_width` by `img_height` pixels: the origin moves to the last
    /// pixel at most, and the extent shrinks to what is left from there.
    pub open spec fn clamp_spec(
        x: u32,
        y: u32,
        width: u32,
        height: u32,
        img_width: u32,
        img_height: u32,
    ) -> CropRegion {
        let cx = min_u32(x, sat_sub(img_width, 1));
        let cy = min_u32(y, sat_sub(img_height, 1));
        CropRegion {
            x: cx,
            y: cy,
            width: min_u32(width, sat_sub(img_width, cx)),
            height: min_u32(height, sat_sub(img_height, cy)),
        }
    }

    /// A region of non-zero area.
    pub open spec fn valid_spec(&self) -> bool {
        self.width > 0 && self.height > 0
    }

    /// Create a new crop region, clamping it to the image bounds.
    pub fn clamped(x: u32, y: u32, width: u32, height: u32, img_width: u32, img_height: u32) -> (r:
        Self)
        ensures
            r == Self::clamp_spec(x, y, width, height, img_width, img_height),
    {
        let crop_x = x.min(img_width.saturating_sub(1));
        let crop_y = y.min(img_height.saturating_sub(1));
        let crop_width = width.min(img_width.saturating_sub(crop_x));
        let crop_height = height.min(img_height.saturating_sub(crop_y));
        CropRegion { x: crop_x, y: crop_y, width: crop_width, height: crop_height }
    }

    /// Whether the region has non-zero width and height.
    #[verifier::when_used_as_spec(valid_spec)]
    pub fn is_valid(&self) -> (r: bool)
        ensures
            r == self.valid_spec(),
    {
        self.width > 0 && self.height > 0
    }
}

#[verifier::external_type_specification]
#[verifier::external_body]
pub struct ExDynamicImage(image::DynamicImage);

/// The width and height of a decoded image, in pixels.
pub uninterp spec fn image_dimensions(img: image::DynamicImage) -> (u32, u32);

/// The pixels of a decoded image by column and row, each as the bytes of its
/// channel values.
pub uninterp spec fn image_pixels(img: image::DynamicImage) -> Map<(u32, u32), Seq<u8>>;

/// Relies on `DynamicImage::width`: the width of the image.
pub assume_specification[ image::DynamicImage::width ](img: &image::DynamicImage) -> (r: u32)
    ensures
        r == image_dimensions(*img).0,
;

/// Relies on `DynamicImage::height`: the height of the image.
pub assume_specification[ image::DynamicImage::height ](img: &image::DynamicImage) -> (r: u32)
    ensures
        r == image_dimensions(*img).1,
;

/// Relies on `DynamicImage::crop_imm`: a copy of the part of the image at
/// (`x`, `y`) of at most `width` by `height` pixels, cut at the image's edges;
/// its pixel (`i`, `j`) is the image's pixel (`x + i`, `y + j`), with `x` and
/// `y` first moved inside the image.
pub assume_specification[ image::DynamicImage::crop_imm ](
    img: &image::DynamicImage,
    x: u32,
    y: u32,
    width: u32,
    height: u32,
) -> (r: image::DynamicImage)
    ensures
        image_dimensions(r) == crop_extent(image_dimensions(*img), x, y, width, height),
        forall|i: u32, j: u32|
            i < image_dimensions(r).0 && j < image_dimensions(r).1 ==> #[trigger] image_pixels(r)[(
                i,
                j,
            )] == image_pixels(*img)[(
                (min_u32(x, image_dimensions(*img).0) + i) as u32,
                (min_u32(y, image_dimensions(*img).1) + j) as u32,
            )],
;

/// The size of the part of an image of size `dims` at (`x`, `y`), of at most
/// `width` by `height` pixels, once cut at the image's edges.
pub open spec fn crop_extent(dims: (u32, u32), x: u32, y: u32, width: u32, height: u32) -> (
    u32,
    u32,
) {
    (
        min_u32(width, sat_sub(dims.0, min_u32(x, dims.0))),
        min_u32(height, sat_sub(dims.1, min_u32(y, dims.1))),
    )
}

/// The message for a request that leaves no pixel to crop.
pub open spec fn crop_error(region: CropRegion, img_width: u32, img_height: u32) -> Seq<char> {
    "Invalid crop region: x="@ + decimal(region.x as nat) + ", y="@ + decimal(region.y as nat)
        + ", w="@ + decimal(region.width as nat) + ", h="@ + decimal(region.height as nat)
        + " (image: "@ + decimal(img_width as nat) + "x"@ + decimal(img_height as nat) + ")"@
}

fn crop_error_message(region: CropRegion, img_width: u32, img_height: u32) -> (r: String)
    ensures
        r@ == crop_error(region, img_width, img_height),
{
    let mut msg = String::from_str("Invalid crop region: x=");
    push_decimal(&mut msg, region.x as u128);
    msg.append(", y=");
    push_decimal(&mut msg, region.y as u128);
    msg.append(", w=");
    push_decimal(&mut msg, region.width as u128);
    msg.append(", h=");
    push_decimal(&mut msg, region.height as u128);
    msg.append(" (image: ");
    push_decimal(&mut msg, img_width as u128);
    msg.append("x");
    push_decimal(&mut msg, img_height as u128);
    msg.append(")");
    assert(msg@ =~= crop_error(region, img_width, img_height));
    msg
}

/// Crops `img` to `region` after clamping the region to the image. A region
/// that is empty once clamped is refused with the requested values and the
/// image's size.
pub fn crop_image(img: &image::DynamicImage, region: CropRegion) -> (r: AppResult<
    image::DynamicImage,
>)
    ensures
        ({
            let (w, h) = image_dimensions(*img);
            let c = CropRegion::clamp_spec(region.x, region.y, region.width, region.height, w, h);
            &&& r is Ok <==> c.valid_spec()
            &&& r matches Err(e) ==> e@ == crop_error(region, w, h)
            &&& r matches Ok(out) ==> image_dimensions(out) == (c.width, c.height)
            &&& r matches Ok(out) ==> forall|i: u32, j: u32|
                i < c.width && j < c.height ==> #[trigger] image_pixels(out)[(i, j)]
                    == image_pixels(*img)[((c.x + i) as u32, (c.y + j) as u32)]
        }),
{
    let img_width = img.width();
    let img_height = img.height();
    let clamped = CropRegion::clamped(
        region.x,
        region.y,
        region.width,
        region.height,
        img_width,
        img_height,
    );
    if !clamped.is_valid() {
        return Err(crop_error_message(region, img_width, img_height));
    }
    Ok(img.crop_imm(clamped.x, clamped.y, clamped.width, clamped.height))
}

/// Clamping keeps the origin inside the image and the far corner within its
/// bounds, for every requested region and every image of non-zero size.
pub proof fn lemma_clamped_within_bounds(
    x: u32,
    y: u32,
    width: u32,
    height: u32,
    img_width: u32,
    img_height: u32,
)
    requires
        img_width > 0,
        img_height > 0,
    ensures
        ({
            let r = CropRegion::clamp_spec(x, y, width, height, img_width, img_height);
            &&& r.x < img_width
            &&& r.y < img_height
            &&& r.x + r.width <= img_width
            &&& r.y + r.height <= img_height
        }),
{
}

/// A region that already lies inside the image is left as it is.
pub proof fn lemma_clamp_inside_is_identity(
    region: CropRegion,
    img_width: u32,
    img_height: u32,
)
    requires
        region.x < img_width,
        region.y < img_height,
        region.x + region.width <= img_width,
        region.y + region.height <= img_height,
    ensures
        CropRegion::clamp_spec(region.x, region.y, region.width, region.height, img_width, img_height)
            == region,
{
}

/// An origin past the image on an axis moves to the last pixel on that axis,
/// leaving at most one pixel of extent there; past both axes, a region of
/// non-zero extent becomes the single last pixel.
pub proof fn lemma_clamp_outside_to_last_pixel(
    x: u32,
    y: u32,
    width: u32,
    height: u32,
    img_width: u32,
    img_height: u32,
)
    requires
        img_width > 0,
        img_height > 0,
        x >= img_width || y >= img_height,
    ensures
        ({
            let r = CropRegion::clamp_spec(x, y, width, height, img_width, img_height);
            &&& x >= img_width ==> r.x == img_width - 1 && r.width == min_u32(width, 1)
            &&& y >= img_height ==> r.y == img_height - 1 && r.height == min_u32(height, 1)
            &&& (x >= img_width && y >= img_height && width > 0 && height > 0) ==> r == CropRegion {
                x: (img_width - 1) as u32,
                y: (img_height - 1) as u32,
                width: 1,
                height: 1,
            }
        }),
{
}

} // verus!
