use vstd::prelude::*;

use crate::error::ClipError;
use crate::onnx::{first_held, OnnxSession};

verus! {

/// Resampling filter used when resizing an image.
#[derive(Debug, Clone, Copy, PartialEq, Eq)]
pub enum Interpolation {
    /// Bicubic (Catmull-Rom) filter.
    Bicubic,
    /// Bilinear (triangle) filter.
    Bilinear,
    /// Nearest-neighbour sampling.
    Nearest,
}

/// How an image is brought to the model's square input size.
#[derive(Debug, Clone, Copy, PartialEq, Eq)]
pub enum ResizeMode {
    /// Stretch the whole image to the square, ignoring its aspect ratio.
    Squash,
    /// Scale the shorter side to the square's side, then cut out the centre.
    CenterCrop,
}

/// The filter named by a preprocessing configuration.
pub open spec fn interpolation_named(name: Seq<char>) -> Interpolation {
    if name == "bicubic"@ {
        Interpolation::Bicubic
    } else if name == "bilinear"@ {
        Interpolation::Bilinear
    } else {
        Interpolation::Nearest
    }
}

/// The resize mode named by a preprocessing configuration.
pub open spec fn resize_mode_named(name: Seq<char>) -> ResizeMode {
    if name == "squash"@ {
        ResizeMode::Squash
    } else {
        ResizeMode::CenterCrop
    }
}

impl Interpolation {
    /// `"bicubic"` and `"bilinear"` select those filters; any other name
    /// selects nearest-neighbour sampling.
    pub fn from_name(name: &str) -> (i: Self)
        ensures
            i == interpolation_named(name@),
    {
        let given = name.to_owned();
        if given == "bicubic".to_owned() {
            Interpolation::Bicubic
        } else if given == "bilinear".to_owned() {
            Interpolation::Bilinear
        } else {
            Interpolation::Nearest
        }
    }
}

impl ResizeMode {
    /// `"squash"` selects squashing; any other name selects a centre crop.
    pub fn from_name(name: &str) -> (m: Self)
        ensures
            m == resize_mode_named(name@),
    {
        let given = name.to_owned();
        if given == "squash".to_owned() {
            ResizeMode::Squash
        } else {
            ResizeMode::CenterCrop
        }
    }
}

/// The input names under which a vision model may expect its pixels, in
/// order of preference.
pub open spec fn vision_input_candidates() -> Seq<Seq<char>> {
    seq!["pixel_values"@, "input"@]
}

/// The name of the model input that receives the pixels: the first of
/// `pixel_values` and `input` that the model has.
pub fn select_vision_input(session: &OnnxSession) -> (r: Result<String, ClipError>)
    ensures
        match r {
            Ok(name) => first_held(session.input_views(), vision_input_candidates()) == Some(name@),
            Err(ClipError::Config(m)) => first_held(session.input_views(), vision_input_candidates()) is None
                && m@ == "Could not find vision input node"@,
            Err(_) => false,
        },
{
    let candidates: Vec<&str> = vec!["pixel_values", "input"];
    assert(candidates@.map_values(|p: &str| p@) =~= vision_input_candidates());
    match session.find_input(candidates.as_slice()) {
        Some(name) => Ok(name),
        None => Err(ClipError::Config("Could not find vision input node".to_owned())),
    }
}

/// The shape `(batch, channels, height, width)` of the tensor that holds a
/// preprocessed batch of `batch_size` square images with side `image_size`.
/// An empty batch is refused.
pub fn batch_tensor_shape(batch_size: usize, image_size: u32) -> (r: Result<(usize, usize, usize, usize), ClipError>)
    requires
        batch_size > 0 ==> batch_size * 3 * image_size * image_size <= isize::MAX,
    ensures
        match r {
            Ok(shape) => batch_size > 0 && shape == (batch_size, 3usize, image_size as usize, image_size as usize),
            Err(ClipError::Inference(m)) => batch_size == 0 && m@ == "Empty batch"@,
            Err(_) => false,
        },
{
    if batch_size == 0 {
        return Err(ClipError::Inference("Empty batch".to_owned()));
    }
    let size = image_size as usize;
    Ok((batch_size, 3, size, size))
}

/// The dimensions of a model output as `usize`s, each taken from the
/// reported `i64` extent with `as` (two's-complement truncation).
pub fn output_dims(shape: &[i64]) -> (dims: Vec<usize>)
    ensures
        dims@.len() == shape@.len(),
        forall|i: int| 0 <= i < shape@.len() ==> #[trigger] dims@[i] == shape@[i] as usize,
{
    let mut dims: Vec<usize> = Vec::new();
    let n = shape.len();
    let mut i: usize = 0;
    while i < n
        invariant
            n == shape@.len(),
            i <= n,
            dims@.len() == i,
            forall|j: int| 0 <= j < i ==> #[trigger] dims@[j] == shape@[j] as usize,
        decreases n - i,
    {
        dims.push(shape[i] as usize);
        i += 1;
    }
    dims
}

/// `planes` holds the three channel planes of the first `n` interleaved RGB
/// pixels of `pixels`.
pub open spec fn are_channel_planes(pixels: Seq<u8>, n: int, planes: Seq<u8>) -> bool {
    &&& planes.len() == 3 * n
    &&& forall|c: int, i: int| 0 <= c < 3 && 0 <= i < n ==> #[trigger] planes[c * n + i] == pixels[3 * i + c]
}

/// Splitting into channel planes loses no byte: byte `k` of the interleaved
/// pixels is found in the plane of channel `k % 3`, at position `k / 3`.
pub proof fn lemma_channel_planes_keep_every_byte(pixels: Seq<u8>, n: int, planes: Seq<u8>)
    requires
        n >= 0,
        are_channel_planes(pixels, n, planes),
    ensures
        forall|k: int| 0 <= k < 3 * n ==> #[trigger] pixels[k] == planes[(k % 3) * n + k / 3],
{
    assert forall|k: int| 0 <= k < 3 * n implies #[trigger] pixels[k] == planes[(k % 3) * n + k / 3] by {
        let c = k % 3;
        let i = k / 3;
        assert(3 * i + c == k && 0 <= c < 3 && 0 <= i < n) by (nonlinear_arith)
            requires 0 <= k < 3 * n, c == k % 3, i == k / 3;
        assert(planes[c * n + i] == pixels[3 * i + c]);
    }
}

/// Reorders interleaved RGB pixels of a `size` x `size` image into three
/// planes, one per channel: the plane of channel `c` holds, at position `i`,
/// the byte at `3 * i + c` of the interleaved pixels.
pub fn channel_planes(pixels: &[u8], size: u32) -> (planes: Vec<u8>)
    requires
        3 * (size * size) <= usize::MAX,
        pixels@.len() >= 3 * (size * size),
    ensures
        are_channel_planes(pixels@, size * size, planes@),
{
    let s = size as usize;
    assert(s * s <= 3 * (s * s)) by (nonlinear_arith);
    let n: usize = s * s;
    let mut planes: Vec<u8> = Vec::new();
    let mut c: usize = 0;
    while c < 3
        invariant
            n == size * size,
            3 * n <= usize::MAX,
            pixels@.len() >= 3 * n,
            c <= 3,
            planes@.len() == c * n,
            forall|cc: int, i: int| 0 <= cc < c && 0 <= i < n ==> #[trigger] planes@[cc * n + i] == pixels@[3 * i + cc],
        decreases 3 - c,
    {
        let mut i: usize = 0;
        while i < n
            invariant
                n == size * size,
                3 * n <= usize::MAX,
                pixels@.len() >= 3 * n,
                c < 3,
                i <= n,
                planes@.len() == c * n + i,
                forall|cc: int, j: int| 0 <= cc < c && 0 <= j < n ==> #[trigger] planes@[cc * n + j] == pixels@[3 * j + cc],
                forall|j: int| 0 <= j < i ==> #[trigger] planes@[c * n + j] == pixels@[3 * j + c],
            decreases n - i,
        {
            assert(3 * i + c < 3 * n) by (nonlinear_arith)
                requires i < n, c < 3;
            let ghost before = planes@;
            planes.push(pixels[3 * i + c]);
            assert forall|cc: int, j: int| 0 <= cc < c && 0 <= j < n implies #[trigger] planes@[cc * n + j] == pixels@[3 * j + cc] by {
                assert(cc * n + j < c * n) by (nonlinear_arith)
                    requires 0 <= cc < c, 0 <= j < n;
                assert(planes@[cc * n + j] == before[cc * n + j]);
            }
            i += 1;
        }
        assert((c + 1) * n == c * n + n) by (nonlinear_arith);
        c += 1;
    }
    planes
}

} // verus!
