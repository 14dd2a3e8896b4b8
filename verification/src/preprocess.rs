use vstd::prelude::*;

use crate::errors::PipelineError;

verus! {

/// Whether the given bytes decode as an image: their leading magic bytes
/// match one of the built-in raster formats, and the bytes then decode
/// under that format. Both checks read nothing but the bytes, so this is a
/// predicate of the bytes alone.
pub uninterp spec fn decodable(bytes: Seq<u8>) -> bool;

/// The flat row-major, channel-interleaved RGB byte sequence (three bytes
/// per pixel) that decoding the given encoded image bytes and resizing the
/// result to exactly `width` by `height` pixels with the triangle
/// (bilinear-family) filter produces. Decoding under a fixed built-in
/// format and resampling read nothing but their arguments, so the result
/// is a function of the bytes and the target dimensions alone.
pub uninterp spec fn rgb_pixels_of(bytes: Seq<u8>, width: nat, height: nat) -> Seq<u8>;

/// Relies on image::guess_format, which recognizes the common raster
/// formats by their magic bytes against the built-in table only, and
/// image::load_from_memory_with_format, which decodes under that fixed
/// built-in format; pinning the format this way keeps the decode away from
/// the crate's process-global, registrable detection and decoding hooks,
/// so success and result are functions of the bytes alone, and `decodable`
/// names exactly the inputs on which the two calls succeed. Further relies
/// on DynamicImage::resize_exact with FilterType::Triangle to resample to
/// exactly `width` by `height` (aspect ratio not preserved),
/// DynamicImage::to_rgb8 to convert to three 8-bit channels per pixel
/// (dropping alpha, synthesizing channels from grayscale), and
/// ImageBuffer::into_raw for the flat row-major buffer, which therefore
/// holds exactly `3 * width * height` bytes.
#[verifier::external_body]
fn decode_resize_rgb(bytes: &Vec<u8>, width: u32, height: u32) -> (r: Result<Vec<u8>, ()>)
    requires
        1 <= width,
        1 <= height,
    ensures
        r is Ok <==> decodable(bytes@),
        r is Ok ==> r->Ok_0@ == rgb_pixels_of(bytes@, width as nat, height as nat),
        r is Ok ==> r->Ok_0@.len() == 3 * (width as nat) * (height as nat),
{
    let format = match image::guess_format(bytes.as_slice()) {
        Ok(f) => f,
        Err(_) => return Err(()),
    };
    let img = match image::load_from_memory_with_format(bytes.as_slice(), format) {
        Ok(i) => i,
        Err(_) => return Err(()),
    };
    let resized = img.resize_exact(width, height, image::imageops::FilterType::Triangle);
    Ok(resized.to_rgb8().into_raw())
}

/// The preprocessed image: a flat tensor of raw channel bytes in row-major,
/// channel-interleaved order, shaped `(1, height, width, 3)`.
///
/// The engine consumes each byte `b` as the 32-bit float `b / 127.5 - 1.0`;
/// the tensor keeps the raw bytes, and `normalized_numerator` gives the
/// exact value each byte stands for.
pub struct ImageTensor {
    pub data: Vec<u8>,
    pub width: u32,
    pub height: u32,
}

impl ImageTensor {
    /// The tensor holds exactly three channel bytes per pixel.
    pub open spec fn wf(self) -> bool {
        self.data@.len() == 3 * (self.width as nat) * (self.height as nat)
    }
}

/// The exact value the engine reads for a raw channel byte `b`, given as a
/// numerator over the fixed denominator 255: `b / 127.5 - 1.0` equals
/// `(2 * b - 255) / 255`.
pub open spec fn normalized_numerator(b: u8) -> int {
    2 * b - 255
}

/// Law: normalization maps every raw channel byte into `[-1.0, 1.0]`, and
/// every byte but 255 into `[-1.0, 1.0)`: over the denominator 255 the
/// numerator lies in `[-255, 255]`, strictly below 255 unless the byte is
/// 255 itself, which normalizes to exactly 1.0.
pub proof fn lemma_normalization_range(b: u8)
    ensures
        -255 <= normalized_numerator(b) <= 255,
        b < 255 ==> normalized_numerator(b) < 255,
        b == 255 ==> normalized_numerator(b) == 255,
{
}

/// Law: preprocessing is deterministic. Two tensors produced from the same
/// encoded image bytes and the same target dimensions hold identical data.
pub proof fn lemma_preprocess_deterministic(
    t1: ImageTensor,
    t2: ImageTensor,
    bytes: Seq<u8>,
    width: nat,
    height: nat,
)
    requires
        t1.data@ == rgb_pixels_of(bytes, width, height),
        t2.data@ == rgb_pixels_of(bytes, width, height),
    ensures
        t1.data@ == t2.data@,
{
}

/// Turns the raw contents of an image file into the engine's input tensor:
/// decode, resize to exactly `width` by `height` with the triangle filter,
/// convert to interleaved RGB.
///
/// Succeeds exactly when bytes were read and they decode as an image; a
/// missing file (`None`) and undecodable bytes both fail with `ImageLoad`.
/// On success the tensor is exactly the preprocessed pixels of the given
/// bytes — a function of the bytes and the target dimensions alone, so two
/// calls on the same input return the same result.
pub fn image_to_tensor(read: Option<Vec<u8>>, width: u32, height: u32) -> (r: Result<
    ImageTensor,
    PipelineError,
>)
    requires
        1 <= width,
        1 <= height,
    ensures
        r is Ok <==> (read is Some && decodable(read->Some_0@)),
        r is Err ==> r->Err_0 == PipelineError::ImageLoad,
        r is Ok ==> {
            let t = r->Ok_0;
            &&& t.width == width
            &&& t.height == height
            &&& t.wf()
            &&& t.data@ == rgb_pixels_of(read->Some_0@, width as nat, height as nat)
        },
{
    let bytes = match read {
        None => return Err(PipelineError::ImageLoad),
        Some(b) => b,
    };
    match decode_resize_rgb(&bytes, width, height) {
        Ok(data) => Ok(ImageTensor { data, width, height }),
        Err(()) => Err(PipelineError::ImageLoad),
    }
}

} // verus!
