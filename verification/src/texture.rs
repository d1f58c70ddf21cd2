//! What is uploaded to a texture for an RGBA image: the bytes in the
//! texture's channel order and the row layout.
use vstd::prelude::*;

verus! {

/// The texture formats whose channel order the upload tells apart; every
/// other format is `Other`.
#[derive(PartialEq, Eq, Structural, Clone, Copy, Debug)]
pub enum TextureFormat {
    Rgba8Unorm,
    Rgba8UnormSrgb,
    Bgra8Unorm,
    Bgra8UnormSrgb,
    Other,
}

/// The format stores blue first.
pub open spec fn is_bgra(format: TextureFormat) -> bool {
    format == TextureFormat::Bgra8Unorm || format == TextureFormat::Bgra8UnormSrgb
}

/// The channel a byte of a BGRA pixel is taken from in an RGBA pixel.
pub open spec fn swapped_channel(j: int) -> int {
    if j == 0 {
        2
    } else if j == 2 {
        0
    } else {
        j
    }
}

/// `dst` is `src` with red and blue swapped in every whole 4-byte pixel;
/// bytes after the last whole pixel are dropped.
pub open spec fn is_red_blue_swap(src: Seq<u8>, dst: Seq<u8>) -> bool {
    &&& dst.len() == 4 * (src.len() / 4)
    &&& forall|k: int, j: int|
        0 <= k < src.len() / 4 && 0 <= j < 4 ==> #[trigger] dst[4 * k + j] == src[4 * k
            + swapped_channel(j)]
}

/// What is written to a texture: the bytes, the length of a row in bytes
/// and the number of rows of an image.
pub struct TextureUpload {
    pub bytes_per_row: Option<u32>,
    pub rows_per_image: Option<u32>,
    pub data: Vec<u8>,
}

/// Red and blue swapped in every whole pixel of `rgba`.
pub fn swap_red_blue(rgba: &[u8]) -> (res: Vec<u8>)
    ensures
        is_red_blue_swap(rgba@, res@),
{
    let len = rgba.len();
    let pixels = len / 4;
    let mut bgra: Vec<u8> = Vec::new();
    let mut k: usize = 0;
    while k < pixels
        invariant
            len == rgba@.len(),
            pixels == len / 4,
            4 * pixels <= len,
            0 <= k <= pixels,
            bgra@.len() == 4 * k,
            forall|m: int, j: int|
                0 <= m < k && 0 <= j < 4 ==> #[trigger] bgra@[4 * m + j] == rgba@[4 * m
                    + swapped_channel(j)],
        decreases pixels - k,
    {
        let base = 4 * k;
        bgra.push(rgba[base + 2]);
        bgra.push(rgba[base + 1]);
        bgra.push(rgba[base]);
        bgra.push(rgba[base + 3]);
        assert forall|m: int, j: int| 0 <= m < k + 1 && 0 <= j < 4 implies #[trigger] bgra@[4 * m
            + j] == rgba@[4 * m + swapped_channel(j)] by {
            if m == k {
                assert(4 * m + j == base + j);
            }
        }
        k = k + 1;
    }
    bgra
}

/// The bytes of an RGBA image of `size` as a texture of `format` takes
/// them: unchanged for RGBA and other formats, with red and blue swapped
/// for BGRA; each row is `4 * width` bytes, and there are `height` rows.
pub fn prepare_upload(size: (u32, u32), rgba: &[u8], format: TextureFormat) -> (res:
    TextureUpload)
    requires
        4 * size.0 <= u32::MAX,
    ensures
        res.bytes_per_row == Some((4 * size.0) as u32),
        res.rows_per_image == Some(size.1),
        is_bgra(format) ==> is_red_blue_swap(rgba@, res.data@),
        !is_bgra(format) ==> res.data@ == rgba@,
{
    let bytes_per_row = Some(4 * size.0);
    let data = match format {
        TextureFormat::Bgra8Unorm | TextureFormat::Bgra8UnormSrgb => swap_red_blue(rgba),
        _ => vstd::slice::slice_to_vec(rgba),
    };
    TextureUpload { bytes_per_row, rows_per_image: Some(size.1), data }
}

/// Swapping red and blue twice gives back every whole pixel.
pub proof fn lemma_red_blue_swap_twice(src: Seq<u8>, once: Seq<u8>, twice: Seq<u8>)
    requires
        is_red_blue_swap(src, once),
        is_red_blue_swap(once, twice),
    ensures
        twice.len() == 4 * (src.len() / 4),
        forall|i: int| 0 <= i < twice.len() ==> #[trigger] twice[i] == src[i],
{
    assert(once.len() / 4 == src.len() / 4);
    assert forall|i: int| 0 <= i < twice.len() implies #[trigger] twice[i] == src[i] by {
        let k = i / 4;
        let j = i % 4;
        assert(i == 4 * k + j);
        assert(twice[4 * k + j] == once[4 * k + swapped_channel(j)]);
        assert(once[4 * k + swapped_channel(j)] == src[4 * k + swapped_channel(swapped_channel(j))]);
    }
}

} // verus!
