//! The transform engine: decode raw image bytes, resize them to an exact
//! size and encode the result as PNG.
use crate::key::TransformCfg;
use image::imageops::FilterType;
use image::io::Reader;
use image::ImageOutputFormat;
use std::io::Cursor;
use vstd::prelude::*;

verus! {

/// Why a transform produced no output.
#[derive(Clone, Copy, Debug, PartialEq, Eq, Structural)]
pub enum TransformError {
    /// The raw bytes are in no recognised format, or do not decode.
    Decode,
    /// The resized image could not be encoded (for instance a zero size).
    Encode,
}

/// Whether `raw` is in a recognised image format and decodes.
pub uninterp spec fn decodes(raw: Seq<u8>) -> bool;

/// The PNG encoding of `raw`, decoded and resized to exactly
/// `width` x `height` with a Gaussian filter; `None` where encoding fails.
pub uninterp spec fn png_resized(raw: Seq<u8>, width: u32, height: u32) -> Option<Seq<u8>>;

/// Whether the resized raster of `cfg` can be addressed in memory: four
/// channels of each output pixel must fit a `usize` count.
pub open spec fn fits_memory(cfg: TransformCfg) -> bool {
    (cfg.width as int) * (cfg.height as int) * 4 <= usize::MAX as int
}

/// Whether `cfg` meets `fits_memory`, the bound that `transform` and a
/// batch require.
pub fn fits(cfg: &TransformCfg) -> (r: bool)
    ensures
        r == fits_memory(*cfg),
{
    let w = cfg.width as u128;
    let h = cfg.height as u128;
    proof {
        vstd::arithmetic::mul::lemma_mul_upper_bound(w as int, 0xffff_ffff, h as int, 0xffff_ffff);
    }
    w * h * 4 <= usize::MAX as u128
}

/// The outcome of transforming `raw` by `cfg`.
pub open spec fn transformed(raw: Seq<u8>, cfg: TransformCfg) -> Result<Seq<u8>, TransformError> {
    if !decodes(raw) {
        Err(TransformError::Decode)
    } else {
        match png_resized(raw, cfg.width, cfg.height) {
            Some(out) => Ok(out),
            None => Err(TransformError::Encode),
        }
    }
}

/// Relies on the `image` crate: `io::Reader::with_guessed_format` and
/// `io::Reader::decode` (failure named by `decodes`), then
/// `DynamicImage::resize_exact` with `FilterType::Gaussian` and
/// `DynamicImage::write_to` as `ImageOutputFormat::Png` (named by
/// `png_resized`). `ImageBuffer::new` panics where the raster length
/// overflows `usize`, hence the bound on the output size; the intermediate
/// raster (output width by source height) stays in range on 64-bit targets
/// because the decoder's default limits cap the source at 512 MiB.
#[verifier::external_body]
fn resize_to_png(raw: &[u8], width: u32, height: u32) -> (r: Result<Vec<u8>, TransformError>)
    requires
        (width as int) * (height as int) * 4 <= usize::MAX as int,
    ensures
        r matches Err(TransformError::Decode) <==> !decodes(raw@),
        r matches Ok(out) ==> decodes(raw@) && png_resized(raw@, width, height) == Some(out@),
        r matches Err(TransformError::Encode) ==> png_resized(raw@, width, height) is None,
{
    let decoded = match Reader::new(Cursor::new(raw)).with_guessed_format() {
        Ok(reader) => reader.decode(),
        Err(_) => return Err(TransformError::Decode),
    };
    let img = match decoded {
        Ok(img) => img,
        Err(_) => return Err(TransformError::Decode),
    };
    let mut out = Cursor::new(Vec::new());
    match img.resize_exact(width, height, FilterType::Gaussian).write_to(&mut out, ImageOutputFormat::Png) {
        Ok(()) => Ok(out.into_inner()),
        Err(_) => Err(TransformError::Encode),
    }
}

/// Decode `bytes`, resize them to exactly `cfg.width` x `cfg.height` and
/// encode the result as PNG.
pub fn transform(bytes: &[u8], cfg: TransformCfg) -> (r: Result<Vec<u8>, TransformError>)
    requires
        fits_memory(cfg),
    ensures
        r matches Ok(out) ==> transformed(bytes@, cfg) == Ok::<Seq<u8>, TransformError>(out@),
        r matches Err(e) ==> transformed(bytes@, cfg) == Err::<Seq<u8>, TransformError>(e),
{
    resize_to_png(bytes, cfg.width, cfg.height)
}

/// Transforming is a function of its inputs: equal bytes and equal
/// specifications give the same outcome, output bytes included.
pub proof fn lemma_transform_pure(a: Seq<u8>, b: Seq<u8>, ca: TransformCfg, cb: TransformCfg)
    requires
        a == b,
        ca == cb,
    ensures
        transformed(a, ca) == transformed(b, cb),
{
}

} // verus!
