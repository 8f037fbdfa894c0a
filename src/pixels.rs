//! Pixel buffers from the platform capture path, which delivers BGRA.

use vstd::prelude::*;
use crate::text::{decimal, push_decimal};
use crate::utils::AppResult;

verus! {

/// An RGBA image held in memory: `width` by `height` pixels, row by row,
/// four samples per pixel.
#[derive(Debug)]
pub struct RgbaFrame {
    width: u32,
    height: u32,
    samples: Vec<u8>,
}

impl RgbaFrame {
    #[verifier::type_invariant]
    spec fn wf(&self) -> bool {
        self.samples@.len() == 4 * self.width * self.height
    }

    pub closed spec fn spec_width(&self) -> u32 {
        self.width
    }

    pub closed spec fn spec_height(&self) -> u32 {
        self.height
    }

    pub closed spec fn spec_samples(&self) -> Seq<u8> {
        self.samples@
    }

    /// The image's width in pixels.
    pub fn width(&self) -> (r: u32)
        ensures
            r == self.spec_width(),
    {
        self.width
    }

    /// The image's height in pixels.
    pub fn height(&self) -> (r: u32)
        ensures
            r == self.spec_height(),
    {
        self.height
    }

    /// All samples, row by row, in RGBA order.
    pub fn samples(&self) -> (r: &Vec<u8>)
        ensures
            r@ == self.spec_samples(),
            r@.len() == 4 * self.spec_width() * self.spec_height(),
    {
        proof {
            use_type_invariant(self);
        }
        &self.samples
    }

    /// The four samples (red, green, blue, alpha) of the pixel in column `x`
    /// and row `y`.
    pub fn get_pixel(&self, x: u32, y: u32) -> (r: [u8; 4])
        requires
            x < self.spec_width(),
            y < self.spec_height(),
        ensures
            r@ == self.spec_samples().subrange(
                4 * (y * self.spec_width() + x),
                4 * (y * self.spec_width() + x) + 4,
            ),
    {
        proof {
            use_type_invariant(self);
        }
        let n = self.samples.len();
        proof {
            let w = self.width as int;
            let h = self.height as int;
            assert(0 <= (y as int) * w && (y as int) * w + (x as int) + 1 <= w * h)
                by (nonlinear_arith)
                requires
                    0 <= x < w,
                    0 <= y < h,
            ;
            assert(4 * w * h == 4 * (w * h)) by (nonlinear_arith);
        }
        let i: usize = 4 * ((y as usize) * (self.width as usize) + (x as usize));
        let r = [self.samples[i], self.samples[i + 1], self.samples[i + 2], self.samples[i + 3]];
        assert(r@ =~= self.spec_samples().subrange(i as int, i + 4));
        r
    }
}

/// The same pixels with blue and red trading places in each group of four
/// samples: BGRA order becomes RGBA order.
pub open spec fn bgra_to_rgba(bgra: Seq<u8>) -> Seq<u8> {
    Seq::new(
        bgra.len(),
        |i: int|
            if i % 4 == 0 && i + 2 < bgra.len() {
                bgra[i + 2]
            } else if i % 4 == 2 {
                bgra[i - 2]
            } else {
                bgra[i]
            },
    )
}

pub open spec fn buffer_length_error(expected: nat, got: nat) -> Seq<char> {
    "Invalid buffer length: expected "@ + decimal(expected) + ", got "@ + decimal(got)
}

/// The four samples of the pixel that starts at `k`, once converted.
proof fn lemma_converted_pixel(bgra: Seq<u8>, k: int)
    requires
        0 <= k,
        k % 4 == 0,
        k + 4 <= bgra.len(),
    ensures
        bgra_to_rgba(bgra)[k] == bgra[k + 2],
        bgra_to_rgba(bgra)[k + 1] == bgra[k + 1],
        bgra_to_rgba(bgra)[k + 2] == bgra[k],
        bgra_to_rgba(bgra)[k + 3] == bgra[k + 3],
{
    assert((k + 1) % 4 == 1 && (k + 2) % 4 == 2 && (k + 3) % 4 == 3);
}

fn swap_red_blue(bgra: &[u8]) -> (r: Vec<u8>)
    requires
        bgra@.len() % 4 == 0,
    ensures
        r@ == bgra_to_rgba(bgra@),
{
    let ghost target = bgra_to_rgba(bgra@);
    let mut out: Vec<u8> = Vec::new();
    let mut i: usize = 0;
    while i < bgra.len()
        invariant
            i <= bgra@.len(),
            i % 4 == 0,
            bgra@.len() % 4 == 0,
            target == bgra_to_rgba(bgra@),
            out@ == target.take(i as int),
        decreases bgra.len() - i,
    {
        proof {
            lemma_converted_pixel(bgra@, i as int);
        }
        let ghost before = out@;
        out.push(bgra[i + 2]);
        out.push(bgra[i + 1]);
        out.push(bgra[i]);
        out.push(bgra[i + 3]);
        proof {
            assert(out@ =~= before + seq![target[i + 0], target[i + 1], target[i + 2], target[i + 3]]);
            assert(target.take(i + 4) =~= target.take(i as int) + seq![
                target[i + 0],
                target[i + 1],
                target[i + 2],
                target[i + 3],
            ]);
        }
        i = i + 4;
    }
    assert(target.take(i as int) =~= target);
    out
}

/// Turns a BGRA frame of `width` by `height` pixels into an RGBA image. The
/// frame must hold exactly four samples per pixel.
pub fn convert_bgra_to_rgba(bgra_data: &[u8], width: u32, height: u32) -> (r: AppResult<
    RgbaFrame,
>)
    ensures
        r is Ok <==> bgra_data@.len() == 4 * width * height,
        r matches Err(e) ==> e@ == buffer_length_error(
            (4 * width * height) as nat,
            bgra_data@.len(),
        ),
        r matches Ok(img) ==> img.spec_samples() == bgra_to_rgba(bgra_data@) && img.spec_width()
            == width && img.spec_height() == height,
{
    assert((width as int) * (height as int) <= 0xffff_ffffu64 * 0xffff_ffffu64) by (nonlinear_arith)
        requires
            width <= 0xffff_ffffu32,
            height <= 0xffff_ffffu32,
    ;
    let expected: u128 = (width as u128) * (height as u128) * 4;
    assert(expected == 4 * width * height) by (nonlinear_arith)
        requires
            expected == (width as int) * (height as int) * 4,
    ;
    let got = bgra_data.len();
    if got as u128 != expected {
        let mut msg = String::from_str("Invalid buffer length: expected ");
        push_decimal(&mut msg, expected);
        msg.append(", got ");
        push_decimal(&mut msg, got as u128);
        proof {
            assert(msg@ =~= buffer_length_error((4 * width * height) as nat, bgra_data@.len()));
        }
        return Err(msg);
    }
    assert(bgra_data@.len() % 4 == 0) by (nonlinear_arith)
        requires
            bgra_data@.len() == (width as int) * (height as int) * 4,
    ;
    let samples = swap_red_blue(bgra_data);
    Ok(RgbaFrame { width, height, samples })
}

} // verus!
