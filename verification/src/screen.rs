//! Screen-frame processing: scaling, change detection between frames, block
//! extraction and JPEG/Base64 packaging.
use vstd::prelude::*;

use rayon::iter::{IntoParallelIterator, ParallelIterator};
use base64::engine::general_purpose;
use base64::Engine;
use image::codecs::jpeg::JpegEncoder;
use image::{ExtendedColorType, ImageEncoder};

verus! {

/// A changed rectangle of the screen, with its JPEG image in Base64.
#[derive(Debug, Clone)]
pub struct ChangedRegion {
    pub x: u32,
    pub y: u32,
    pub width: u32,
    pub height: u32,
    pub data: String,
}

/// A captured frame: four bytes per pixel, row-major.
#[derive(Debug, Clone)]
pub struct ScreenFrame {
    pub data: Vec<u8>,
    pub width: u32,
    pub height: u32,
}

/// Screen capture state: the last frame sent and the number of frames
/// processed. A full JPEG frame goes out every thirtieth frame and whenever no
/// earlier frame is known; other frames send only the blocks that changed.
pub struct ScreenCaptureService {
    last_frame: Option<ScreenFrame>,
    frame_count: u32,
}

/// Why a frame could not be processed.
#[derive(Debug, Clone, Copy, PartialEq, Eq)]
pub enum ScreenError {
    /// The pixel buffer is smaller than the stated dimensions need.
    ImageCreation,
    /// The JPEG encoder refused the image.
    Encode,
    /// Two frames to compare have different dimensions.
    FrameSizeMismatch,
}

/// The RGB bytes of the first `n` pixels of a four-bytes-per-pixel BGRA
/// buffer: for each pixel its third, second and first byte.
pub open spec fn rgb_prefix(d: Seq<u8>, n: nat) -> Seq<u8>
    decreases n,
{
    if n == 0 {
        Seq::empty()
    } else {
        let p = 4 * (n - 1);
        rgb_prefix(d, (n - 1) as nat) + seq![d[p + 2], d[p + 1], d[p]]
    }
}

/// The RGB bytes of a BGRA buffer: every complete pixel converted, a trailing
/// partial pixel dropped.
pub open spec fn rgb_of(d: Seq<u8>) -> Seq<u8> {
    rgb_prefix(d, d.len() / 4)
}

/// Converts BGRA pixels to RGB (alpha dropped, colour order reversed).
pub fn bgra_to_rgb(bgra: &[u8]) -> (r: Vec<u8>)
    ensures
        r@ == rgb_of(bgra@),
{
    let n = bgra.len() / 4;
    let mut rgb: Vec<u8> = Vec::new();
    let mut j: usize = 0;
    while j < n
        invariant
            n == bgra@.len() / 4,
            4 * n <= bgra.len(),
            j <= n,
            rgb@ == rgb_prefix(bgra@, j as nat),
        decreases n - j,
    {
        let base = 4 * j;
        rgb.push(bgra[base + 2]);
        rgb.push(bgra[base + 1]);
        rgb.push(bgra[base]);
        j = j + 1;
        assert(rgb@ == rgb_prefix(bgra@, j as nat));
    }
    rgb
}

/// The result of JPEG-encoding an RGB image with `image`'s `JpegEncoder` at a
/// quality: the encoded bytes, or `None` when the encoder reports an error.
pub uninterp spec fn jpeg_result(rgb: Seq<u8>, width: u32, height: u32, quality: u8) -> Option<Seq<u8>>;

/// Encodes an RGB image as JPEG with `JpegEncoder::new_with_quality` and
/// `write_image`.
/// Trusted: the result depends only on the pixels, dimensions and quality, and
/// is a `Vec`, which std keeps within `isize::MAX` bytes. `encode_image`
/// refuses a side of 0 or above 65535 (`InvalidSize`); otherwise it only
/// writes into the `Vec`, which cannot fail, so it succeeds. The encoder
/// panics unless the buffer holds exactly `width * height * 3` bytes, which
/// `requires` demands.
#[verifier::external_body]
fn jpeg_encode(rgb: &[u8], width: u32, height: u32, quality: u8) -> (r: Option<Vec<u8>>)
    requires
        rgb@.len() == width * height * 3,
    ensures
        crate::annexb::opt_bytes_view(r) == jpeg_result(rgb@, width, height, quality),
        r matches Some(v) ==> v@.len() <= isize::MAX,
        r is Some <==> (1 <= width <= 65535 && 1 <= height <= 65535),
{
    let mut out: Vec<u8> = Vec::new();
    let encoder = JpegEncoder::new_with_quality(&mut out, quality);
    match encoder.write_image(rgb, width, height, ExtendedColorType::Rgb8) {
        Ok(()) => Some(out),
        Err(_) => None,
    }
}

/// The outcome of JPEG-encoding a BGRA image: the image needs at least
/// `width * height` complete pixels; then its RGB conversion is encoded.
pub open spec fn encode_jpeg_spec(bgra: Seq<u8>, width: u32, height: u32, quality: u8) -> Result<Seq<u8>, ScreenError> {
    if bgra.len() / 4 < width * height {
        Err(ScreenError::ImageCreation)
    } else {
        match jpeg_result(rgb_of(bgra), width, height, quality) {
            Some(j) => Ok(j),
            None => Err(ScreenError::Encode),
        }
    }
}

pub open spec fn result_bytes_view(r: Result<Vec<u8>, ScreenError>) -> Result<Seq<u8>, ScreenError> {
    match r {
        Ok(v) => Ok(v@),
        Err(e) => Err(e),
    }
}

/// What a JPEG from `encode_jpeg` holds beyond its bytes: as a `Vec` it fits in
/// `isize::MAX` bytes.
pub open spec fn jpeg_fits(r: Result<Vec<u8>, ScreenError>) -> bool {
    r matches Ok(v) ==> v@.len() <= isize::MAX
}

/// Encodes a BGRA image as JPEG at the given quality. A buffer with more
/// pixels than the dimensions hold makes the encoder panic, so it is not
/// accepted.
pub fn encode_jpeg(bgra: &[u8], width: u32, height: u32, quality: u8) -> (r: Result<Vec<u8>, ScreenError>)
    requires
        bgra@.len() / 4 <= width * height,
    ensures
        result_bytes_view(r) == encode_jpeg_spec(bgra@, width, height, quality),
        jpeg_fits(r),
        r is Ok <==> (bgra@.len() / 4 >= width * height && 1 <= width <= 65535 && 1 <= height <= 65535),
{
    let rgb = bgra_to_rgb(bgra);
    assert((width as u64) * (height as u64) <= u64::MAX) by (nonlinear_arith);
    let pixels = (width as u64) * (height as u64);
    if ((bgra.len() / 4) as u64) < pixels {
        return Err(ScreenError::ImageCreation);
    }
    proof {
        lemma_rgb_prefix_len(bgra@, bgra@.len() / 4);
    }
    match jpeg_encode(rgb.as_slice(), width, height, quality) {
        Some(j) => Ok(j),
        None => Err(ScreenError::Encode),
    }
}

proof fn lemma_rgb_prefix_len(d: Seq<u8>, n: nat)
    ensures
        rgb_prefix(d, n).len() == 3 * n,
    decreases n,
{
    if n > 0 {
        lemma_rgb_prefix_len(d, (n - 1) as nat);
    }
}

/// The Base64 digit for a six-bit value (standard alphabet).
pub open spec fn b64_digit(v: int) -> char {
    if v < 26 {
        (('A' as int) + v) as char
    } else if v < 52 {
        (('a' as int) + v - 26) as char
    } else if v < 62 {
        (('0' as int) + v - 52) as char
    } else if v == 62 {
        '+'
    } else {
        '/'
    }
}

/// Standard Base64 with `=` padding: each group of three bytes becomes four
/// digits; a final group of one or two bytes becomes two or three digits
/// followed by padding.
pub open spec fn base64_spec(b: Seq<u8>) -> Seq<char>
    decreases b.len(),
{
    if b.len() == 0 {
        Seq::empty()
    } else if b.len() == 1 {
        let b0 = b[0] as int;
        seq![b64_digit(b0 / 4), b64_digit((b0 % 4) * 16), '=', '=']
    } else if b.len() == 2 {
        let b0 = b[0] as int;
        let b1 = b[1] as int;
        seq![b64_digit(b0 / 4), b64_digit((b0 % 4) * 16 + b1 / 16), b64_digit((b1 % 16) * 4), '=']
    } else {
        let b0 = b[0] as int;
        let b1 = b[1] as int;
        let b2 = b[2] as int;
        seq![
            b64_digit(b0 / 4),
            b64_digit((b0 % 4) * 16 + b1 / 16),
            b64_digit((b1 % 16) * 4 + b2 / 64),
            b64_digit(b2 % 64),
        ] + base64_spec(b.skip(3))
    }
}

/// Encodes bytes as standard Base64 with base64's `general_purpose::STANDARD`
/// engine.
/// Trusted: the text is the standard-alphabet, padded encoding. The engine
/// panics when the encoded length overflows `usize`, which cannot happen for
/// inputs within `isize::MAX` bytes, as `requires` demands.
#[verifier::external_body]
pub(crate) fn base64_encode(bytes: &[u8]) -> (r: String)
    requires
        bytes@.len() <= isize::MAX,
    ensures
        r@ == base64_spec(bytes@),
{
    general_purpose::STANDARD.encode(bytes)
}

/// Side of the square blocks that change detection compares.
pub const BLOCK_SIZE: u32 = 64;

/// Largest per-channel difference that still counts as unchanged.
pub const CHANGE_THRESHOLD: u32 = 10;

pub open spec fn abs_diff(a: u8, b: u8) -> int {
    if a >= b {
        a - b
    } else {
        b - a
    }
}

/// The pixel at byte offset `i` is present in both buffers and one of its
/// first three channels differs by more than `threshold`.
pub open spec fn pixel_changed(last: Seq<u8>, cur: Seq<u8>, i: int, threshold: u32) -> bool {
    &&& i + 3 < last.len()
    &&& i + 3 < cur.len()
    &&& (abs_diff(last[i], cur[i]) > threshold || abs_diff(last[i + 1], cur[i + 1]) > threshold
        || abs_diff(last[i + 2], cur[i + 2]) > threshold)
}

/// Number of changed pixels among the `cols` pixels that start at pixel index
/// `start` (byte offset `4 * start`).
pub open spec fn row_changes(last: Seq<u8>, cur: Seq<u8>, start: int, cols: nat, threshold: u32) -> nat
    decreases cols,
{
    if cols == 0 {
        0
    } else {
        row_changes(last, cur, start, (cols - 1) as nat, threshold) + if pixel_changed(
            last,
            cur,
            4 * (start + cols - 1),
            threshold,
        ) {
            1nat
        } else {
            0nat
        }
    }
}

/// Number of changed pixels in the first `rows` rows of the block at
/// (`bx`, `by`) of width `bw`, in an image `width` pixels wide.
pub open spec fn block_changes(
    last: Seq<u8>,
    cur: Seq<u8>,
    width: int,
    bx: int,
    by: int,
    bw: nat,
    rows: nat,
    threshold: u32,
) -> nat
    decreases rows,
{
    if rows == 0 {
        0
    } else {
        block_changes(last, cur, width, bx, by, bw, (rows - 1) as nat, threshold) + row_changes(
            last,
            cur,
            (by + rows - 1) * width + bx,
            bw,
            threshold,
        )
    }
}

/// A block has changed when more than one fiftieth of its pixels changed.
pub open spec fn block_changed_spec(
    last: Seq<u8>,
    cur: Seq<u8>,
    width: int,
    bx: int,
    by: int,
    bw: nat,
    bh: nat,
    threshold: u32,
) -> bool {
    block_changes(last, cur, width, bx, by, bw, bh, threshold) > (bw * bh) / 50
}

/// The block's pixel positions and offsets all fit in `u32` arithmetic: its
/// last row `by + bh - 1` and the byte offset of its last pixel,
/// `((by + bh - 1) * width + bx + bw - 1) * 4`, do not overflow.
pub open spec fn block_in_u32(width: u32, bx: u32, by: u32, bw: u32, bh: u32) -> bool {
    &&& bw * bh <= u32::MAX
    &&& (bw > 0 && bh > 0) ==> by + bh - 1 <= u32::MAX
    &&& (bw > 0 && bh > 0) ==> ((by + bh - 1) * width + bx + bw - 1) * 4 <= u32::MAX
}

proof fn lemma_row_changes_bound(last: Seq<u8>, cur: Seq<u8>, start: int, cols: nat, threshold: u32)
    ensures
        row_changes(last, cur, start, cols, threshold) <= cols,
    decreases cols,
{
    if cols > 0 {
        lemma_row_changes_bound(last, cur, start, (cols - 1) as nat, threshold);
    }
}

proof fn lemma_block_changes_bound(
    last: Seq<u8>,
    cur: Seq<u8>,
    width: int,
    bx: int,
    by: int,
    bw: nat,
    rows: nat,
    threshold: u32,
)
    ensures
        block_changes(last, cur, width, bx, by, bw, rows, threshold) <= rows * bw,
    decreases rows,
{
    if rows > 0 {
        lemma_block_changes_bound(last, cur, width, bx, by, bw, (rows - 1) as nat, threshold);
        lemma_row_changes_bound(last, cur, (by + rows - 1) * width + bx, bw, threshold);
        assert(rows * bw == (rows - 1) * bw + bw) by (nonlinear_arith);
    }
}

/// The pixel at (`bx + x`, `by + y`) lies at or before the block's last pixel.
proof fn lemma_pixel_offset_bound(width: u32, bx: u32, by: u32, bw: u32, bh: u32, x: u32, y: u32)
    requires
        x < bw,
        y < bh,
    ensures
        (by + y) * width + bx + x <= (by + bh - 1) * width + bx + bw - 1,
{
    assert((by + y) * width <= (by + bh - 1) * width) by (nonlinear_arith)
        requires
            y < bh,
    ;
}

fn channel_diff(a: u8, b: u8) -> (r: u32)
    ensures
        r == abs_diff(a, b),
{
    if a >= b {
        (a - b) as u32
    } else {
        (b - a) as u32
    }
}

impl ScreenCaptureService {
    /// Whether more than one fiftieth of the pixels of the block at (`block_x`,
    /// `block_y`), `block_width` by `block_height` pixels, differ between two
    /// frames `width` pixels wide: a pixel differs when one of its first three
    /// channels changed by more than `threshold`; pixels beyond either buffer
    /// count as unchanged.
    pub fn block_has_changed(
        &self,
        last_data: &[u8],
        current_data: &[u8],
        width: u32,
        block_x: u32,
        block_y: u32,
        block_width: u32,
        block_height: u32,
        threshold: u32,
    ) -> (r: bool)
        requires
            block_in_u32(width, block_x, block_y, block_width, block_height),
        ensures
            r == block_changed_spec(
                last_data@,
                current_data@,
                width as int,
                block_x as int,
                block_y as int,
                block_width as nat,
                block_height as nat,
                threshold,
            ),
    {
        let total_pixels = block_width * block_height;
        let mut changed_pixels: u32 = 0;
        let mut y: u32 = 0;
        while y < block_height
            invariant
                y <= block_height,
                block_in_u32(width, block_x, block_y, block_width, block_height),
                total_pixels == block_width * block_height,
                changed_pixels == block_changes(
                    last_data@,
                    current_data@,
                    width as int,
                    block_x as int,
                    block_y as int,
                    block_width as nat,
                    y as nat,
                    threshold,
                ),
            decreases block_height - y,
        {
            let ghost row_start: int = (block_y + y) * width + block_x;
            let mut x: u32 = 0;
            while x < block_width
                invariant
                    x <= block_width,
                    y < block_height,
                    block_in_u32(width, block_x, block_y, block_width, block_height),
                    total_pixels == block_width * block_height,
                    row_start == (block_y + y) * width + block_x,
                    changed_pixels == block_changes(
                        last_data@,
                        current_data@,
                        width as int,
                        block_x as int,
                        block_y as int,
                        block_width as nat,
                        y as nat,
                        threshold,
                    ) + row_changes(last_data@, current_data@, row_start, x as nat, threshold),
                decreases block_width - x,
            {
                proof {
                    lemma_pixel_offset_bound(width, block_x, block_y, block_width, block_height, x, y);
                    lemma_block_changes_bound(
                        last_data@,
                        current_data@,
                        width as int,
                        block_x as int,
                        block_y as int,
                        block_width as nat,
                        y as nat,
                        threshold,
                    );
                    lemma_row_changes_bound(last_data@, current_data@, row_start, x as nat, threshold);
                    assert(y * block_width + x < block_height * block_width) by (nonlinear_arith)
                        requires
                            y < block_height,
                            x < block_width,
                    ;
                    assert(block_height * block_width == block_width * block_height) by (nonlinear_arith);
                }
                let pixel_x = block_x + x;
                let pixel_y = block_y + y;
                let index = (pixel_y * width + pixel_x) * 4;
                let i = index as u64;
                if i + 3 < last_data.len() as u64 && i + 3 < current_data.len() as u64 {
                    let k = index as usize;
                    let r_diff = channel_diff(last_data[k], current_data[k]);
                    let g_diff = channel_diff(last_data[k + 1], current_data[k + 1]);
                    let b_diff = channel_diff(last_data[k + 2], current_data[k + 2]);
                    if r_diff > threshold || g_diff > threshold || b_diff > threshold {
                        changed_pixels = changed_pixels + 1;
                    }
                }
                x = x + 1;
            }
            y = y + 1;
        }
        changed_pixels > total_pixels / 50
    }
}

/// The four bytes of the pixel at byte offset `i`, or opaque black where the
/// buffer ends before the pixel does.
pub open spec fn pixel_bytes(data: Seq<u8>, i: int) -> Seq<u8> {
    if i + 3 < data.len() {
        seq![data[i], data[i + 1], data[i + 2], data[i + 3]]
    } else {
        seq![0u8, 0u8, 0u8, 255u8]
    }
}

/// The bytes of the `cols` pixels that start at pixel index `start`.
pub open spec fn row_bytes(data: Seq<u8>, start: int, cols: nat) -> Seq<u8>
    decreases cols,
{
    if cols == 0 {
        Seq::empty()
    } else {
        row_bytes(data, start, (cols - 1) as nat) + pixel_bytes(data, 4 * (start + cols - 1))
    }
}

/// The bytes of the first `rows` rows of the block at (`bx`, `by`), `bw`
/// pixels wide, in an image `width` pixels wide, row after row.
pub open spec fn block_bytes(data: Seq<u8>, width: int, bx: int, by: int, bw: nat, rows: nat) -> Seq<u8>
    decreases rows,
{
    if rows == 0 {
        Seq::empty()
    } else {
        block_bytes(data, width, bx, by, bw, (rows - 1) as nat) + row_bytes(
            data,
            (by + rows - 1) * width + bx,
            bw,
        )
    }
}

/// A row of `cols` pixels holds four bytes per pixel.
pub proof fn lemma_row_bytes_len(data: Seq<u8>, start: int, cols: nat)
    ensures
        row_bytes(data, start, cols).len() == 4 * cols,
    decreases cols,
{
    if cols > 0 {
        lemma_row_bytes_len(data, start, (cols - 1) as nat);
    }
}

/// A block of `rows` rows of `bw` pixels holds four bytes per pixel.
pub proof fn lemma_block_bytes_len(data: Seq<u8>, width: int, bx: int, by: int, bw: nat, rows: nat)
    ensures
        block_bytes(data, width, bx, by, bw, rows).len() == 4 * (rows * bw),
    decreases rows,
{
    if rows > 0 {
        lemma_block_bytes_len(data, width, bx, by, bw, (rows - 1) as nat);
        lemma_row_bytes_len(data, (by + rows - 1) * width + bx, bw);
        let r1 = (rows - 1) as nat;
        assert(rows * bw == r1 * bw + bw) by (nonlinear_arith)
            requires
                r1 == rows - 1,
        ;
    } else {
        assert(rows * bw == 0) by (nonlinear_arith)
            requires
                rows == 0,
        ;
    }
}

impl ScreenCaptureService {
    /// Copies the pixels of a block out of a frame `width` pixels wide, row by row;
    /// a pixel beyond the end of the buffer becomes opaque black.
    pub fn extract_block_data(
        &self,
        data: &[u8],
        width: u32,
        block_x: u32,
        block_y: u32,
        block_width: u32,
        block_height: u32,
    ) -> (r: Vec<u8>)
        requires
            block_in_u32(width, block_x, block_y, block_width, block_height),
        ensures
            r@ == block_bytes(
                data@,
                width as int,
                block_x as int,
                block_y as int,
                block_width as nat,
                block_height as nat,
            ),
    {
        let mut block_data: Vec<u8> = Vec::new();
        let mut y: u32 = 0;
        while y < block_height
            invariant
                y <= block_height,
                block_in_u32(width, block_x, block_y, block_width, block_height),
                block_data@ == block_bytes(
                    data@,
                    width as int,
                    block_x as int,
                    block_y as int,
                    block_width as nat,
                    y as nat,
                ),
            decreases block_height - y,
        {
            let ghost row_start: int = (block_y + y) * width + block_x;
            let ghost before: Seq<u8> = block_data@;
            let mut x: u32 = 0;
            while x < block_width
                invariant
                    x <= block_width,
                    y < block_height,
                    block_in_u32(width, block_x, block_y, block_width, block_height),
                    row_start == (block_y + y) * width + block_x,
                    block_data@ == before + row_bytes(data@, row_start, x as nat),
                decreases block_width - x,
            {
                proof {
                    lemma_pixel_offset_bound(width, block_x, block_y, block_width, block_height, x, y);
                }
                let pixel_x = block_x + x;
                let pixel_y = block_y + y;
                let index = (pixel_y * width + pixel_x) * 4;
                let i = index as u64;
                if i + 3 < data.len() as u64 {
                    let k = index as usize;
                    block_data.push(data[k]);
                    block_data.push(data[k + 1]);
                    block_data.push(data[k + 2]);
                    block_data.push(data[k + 3]);
                } else {
                    block_data.push(0);
                    block_data.push(0);
                    block_data.push(0);
                    block_data.push(255);
                }
                x = x + 1;
                assert(block_data@ == before + row_bytes(data@, row_start, x as nat));
            }
            y = y + 1;
        }
        block_data
    }
}

/// Quality of the JPEG image of a changed block.
pub const BLOCK_JPEG_QUALITY: u8 = 45;

/// A changed region in the model: position, size and Base64 text.
pub struct RegionView {
    pub x: u32,
    pub y: u32,
    pub width: u32,
    pub height: u32,
    pub data: Seq<char>,
}

impl View for ChangedRegion {
    type V = RegionView;

    open spec fn view(&self) -> RegionView {
        RegionView { x: self.x, y: self.y, width: self.width, height: self.height, data: self.data@ }
    }
}

pub open spec fn regions_view(rs: Seq<ChangedRegion>) -> Seq<RegionView> {
    rs.map_values(|r: ChangedRegion| r@)
}

pub open spec fn gap(a: int, b: int) -> nat {
    if a > b {
        (a - b) as nat
    } else {
        0
    }
}

/// Extent of the block that starts at `start` along a side of length `total`.
pub open spec fn block_extent(total: int, start: int) -> nat {
    if total - start < BLOCK_SIZE {
        gap(total, start)
    } else {
        BLOCK_SIZE as nat
    }
}

/// What the block at (`bx`, `by`) contributes: nothing when it has not changed;
/// otherwise its region, whose text is the Base64 of the block's JPEG image,
/// or the encoder's error.
pub open spec fn block_region(
    last: Seq<u8>,
    cur: Seq<u8>,
    width: u32,
    bx: int,
    by: int,
    bw: nat,
    bh: nat,
) -> Result<Option<RegionView>, ScreenError> {
    if !block_changed_spec(last, cur, width as int, bx, by, bw, bh, CHANGE_THRESHOLD as u32) {
        Ok(None)
    } else {
        match encode_jpeg_spec(
            block_bytes(cur, width as int, bx, by, bw, bh),
            bw as u32,
            bh as u32,
            BLOCK_JPEG_QUALITY,
        ) {
            Ok(j) => Ok(
                Some(
                    RegionView {
                        x: bx as u32,
                        y: by as u32,
                        width: bw as u32,
                        height: bh as u32,
                        data: base64_spec(j),
                    },
                ),
            ),
            Err(e) => Err(e),
        }
    }
}

pub open spec fn regions_result_view(r: Result<Vec<ChangedRegion>, ScreenError>) -> Result<Seq<RegionView>, ScreenError> {
    match r {
        Ok(rs) => Ok(regions_view(rs@)),
        Err(e) => Err(e),
    }
}

pub open spec fn prepend_regions(
    prefix: Seq<RegionView>,
    r: Result<Seq<RegionView>, ScreenError>,
) -> Result<Seq<RegionView>, ScreenError> {
    match r {
        Ok(rs) => Ok(prefix + rs),
        Err(e) => Err(e),
    }
}

/// The changed regions from block (`bx`, `by`) on, visiting the 64-pixel grid
/// row by row, each row left to right; the first encoder error ends the scan.
pub open spec fn changes_from(
    last: Seq<u8>,
    cur: Seq<u8>,
    width: u32,
    height: u32,
    bx: int,
    by: int,
) -> Result<Seq<RegionView>, ScreenError>
    decreases gap(height as int, by), gap(width as int, bx),
{
    if by < 0 || bx < 0 || by >= height {
        Ok(Seq::empty())
    } else if bx >= width {
        changes_from(last, cur, width, height, 0, by + BLOCK_SIZE)
    } else {
        let bw = block_extent(width as int, bx);
        let bh = block_extent(height as int, by);
        let rest = changes_from(last, cur, width, height, bx + BLOCK_SIZE, by);
        match block_region(last, cur, width, bx, by, bw, bh) {
            Err(e) => Err(e),
            Ok(None) => rest,
            Ok(Some(r)) => prepend_regions(seq![r], rest),
        }
    }
}

/// The changed regions between two frames of equal size.
pub open spec fn changes_spec(last: Seq<u8>, cur: Seq<u8>, width: u32, height: u32) -> Result<Seq<RegionView>, ScreenError> {
    changes_from(last, cur, width, height, 0, 0)
}

proof fn lemma_row_changes_same(d: Seq<u8>, start: int, cols: nat, threshold: u32)
    ensures
        row_changes(d, d, start, cols, threshold) == 0,
    decreases cols,
{
    if cols > 0 {
        lemma_row_changes_same(d, start, (cols - 1) as nat, threshold);
    }
}

/// Byte offset of pixel (`bx + x`, `by + y`) in a frame `width` pixels wide.
pub open spec fn pixel_offset(width: int, bx: int, by: int, x: int, y: int) -> int {
    4 * ((by + y) * width + bx + x)
}

proof fn lemma_row_all_changed(last: Seq<u8>, cur: Seq<u8>, start: int, cols: nat, threshold: u32)
    requires
        forall|k: int| 0 <= k < cols ==> #[trigger] pixel_changed(last, cur, 4 * (start + k), threshold),
    ensures
        row_changes(last, cur, start, cols, threshold) == cols,
    decreases cols,
{
    if cols > 0 {
        lemma_row_all_changed(last, cur, start, (cols - 1) as nat, threshold);
        assert(pixel_changed(last, cur, 4 * (start + (cols - 1)), threshold));
    }
}

proof fn lemma_block_all_changed(
    last: Seq<u8>,
    cur: Seq<u8>,
    width: int,
    bx: int,
    by: int,
    bw: nat,
    rows: nat,
    threshold: u32,
)
    requires
        forall|y: int, x: int|
            0 <= y < rows && 0 <= x < bw ==> #[trigger] pixel_changed(
                last,
                cur,
                pixel_offset(width, bx, by, x, y),
                threshold,
            ),
    ensures
        block_changes(last, cur, width, bx, by, bw, rows, threshold) == rows * bw,
    decreases rows,
{
    if rows > 0 {
        lemma_block_all_changed(last, cur, width, bx, by, bw, (rows - 1) as nat, threshold);
        let start = (by + rows - 1) * width + bx;
        assert forall|k: int| 0 <= k < bw implies #[trigger] pixel_changed(last, cur, 4 * (start + k), threshold) by {
            assert(pixel_offset(width, bx, by, k, rows - 1) == 4 * (start + k));
            assert(pixel_changed(last, cur, pixel_offset(width, bx, by, k, rows - 1), threshold));
        }
        lemma_row_all_changed(last, cur, start, bw, threshold);
        let r1 = (rows - 1) as nat;
        assert(block_changes(last, cur, width, bx, by, bw, rows, threshold) == block_changes(
            last,
            cur,
            width,
            bx,
            by,
            bw,
            r1,
            threshold,
        ) + row_changes(last, cur, start, bw, threshold));
        assert(rows * bw == r1 * bw + bw) by (nonlinear_arith)
            requires
                r1 == rows - 1,
        ;
    } else {
        assert(rows * bw == 0) by (nonlinear_arith)
            requires
                rows == 0,
        ;
    }
}

/// Every colour channel counts: a block in which each pixel is present in
/// both frames and changed by more than the threshold in colour channel `c`
/// (red, green or blue, whatever the other channels do) is reported changed
/// by `block_has_changed`.
pub proof fn law_any_colour_channel_counts(
    last: Seq<u8>,
    cur: Seq<u8>,
    width: int,
    bx: int,
    by: int,
    bw: nat,
    bh: nat,
    threshold: u32,
    c: int,
)
    requires
        0 <= c < 3,
        bw > 0,
        bh > 0,
        forall|y: int, x: int|
            0 <= y < bh && 0 <= x < bw ==> {
                &&& #[trigger] pixel_offset(width, bx, by, x, y) + 3 < last.len()
                &&& pixel_offset(width, bx, by, x, y) + 3 < cur.len()
                &&& abs_diff(
                    last[pixel_offset(width, bx, by, x, y) + c],
                    cur[pixel_offset(width, bx, by, x, y) + c],
                ) > threshold
            },
    ensures
        block_changed_spec(last, cur, width, bx, by, bw, bh, threshold),
{
    assert forall|y: int, x: int|
        0 <= y < bh && 0 <= x < bw implies #[trigger] pixel_changed(
        last,
        cur,
        pixel_offset(width, bx, by, x, y),
        threshold,
    ) by {
        let i = pixel_offset(width, bx, by, x, y);
        assert(i + 3 < last.len());
        if c == 0 {
            assert(abs_diff(last[i], cur[i]) > threshold);
        } else if c == 1 {
            assert(abs_diff(last[i + 1], cur[i + 1]) > threshold);
        } else {
            assert(abs_diff(last[i + 2], cur[i + 2]) > threshold);
        }
    }
    lemma_block_all_changed(last, cur, width, bx, by, bw, bh, threshold);
    let n = bh * bw;
    assert(n >= 1) by (nonlinear_arith)
        requires
            bw > 0,
            bh > 0,
            n == bh * bw,
    ;
    assert(bw * bh == n) by (nonlinear_arith)
        requires
            n == bh * bw,
    ;
    assert(n > n / 50);
}

proof fn lemma_row_none_changed(last: Seq<u8>, cur: Seq<u8>, start: int, cols: nat, threshold: u32)
    requires
        forall|k: int| 0 <= k < cols ==> !#[trigger] pixel_changed(last, cur, 4 * (start + k), threshold),
    ensures
        row_changes(last, cur, start, cols, threshold) == 0,
    decreases cols,
{
    if cols > 0 {
        lemma_row_none_changed(last, cur, start, (cols - 1) as nat, threshold);
        assert(!pixel_changed(last, cur, 4 * (start + (cols - 1)), threshold));
    }
}

proof fn lemma_block_none_changed(
    last: Seq<u8>,
    cur: Seq<u8>,
    width: int,
    bx: int,
    by: int,
    bw: nat,
    rows: nat,
    threshold: u32,
)
    requires
        forall|y: int, x: int|
            0 <= y < rows && 0 <= x < bw ==> !#[trigger] pixel_changed(
                last,
                cur,
                pixel_offset(width, bx, by, x, y),
                threshold,
            ),
    ensures
        block_changes(last, cur, width, bx, by, bw, rows, threshold) == 0,
    decreases rows,
{
    if rows > 0 {
        lemma_block_none_changed(last, cur, width, bx, by, bw, (rows - 1) as nat, threshold);
        let start = (by + rows - 1) * width + bx;
        assert forall|k: int| 0 <= k < bw implies !#[trigger] pixel_changed(last, cur, 4 * (start + k), threshold) by {
            assert(pixel_offset(width, bx, by, k, rows - 1) == 4 * (start + k));
        }
        lemma_row_none_changed(last, cur, start, bw, threshold);
    }
}

/// Only the colour channels count, and only beyond the threshold: a block in
/// which no pixel's red, green or blue byte moved by more than the threshold
/// (the fourth byte may change freely) is reported unchanged.
pub proof fn law_small_or_alpha_changes_ignored(
    last: Seq<u8>,
    cur: Seq<u8>,
    width: int,
    bx: int,
    by: int,
    bw: nat,
    bh: nat,
    threshold: u32,
)
    requires
        forall|y: int, x: int|
            0 <= y < bh && 0 <= x < bw && #[trigger] pixel_offset(width, bx, by, x, y) + 3 < last.len()
                && pixel_offset(width, bx, by, x, y) + 3 < cur.len() ==> {
                let i = pixel_offset(width, bx, by, x, y);
                &&& abs_diff(last[i], cur[i]) <= threshold
                &&& abs_diff(last[i + 1], cur[i + 1]) <= threshold
                &&& abs_diff(last[i + 2], cur[i + 2]) <= threshold
            },
    ensures
        !block_changed_spec(last, cur, width, bx, by, bw, bh, threshold),
{
    assert forall|y: int, x: int|
        0 <= y < bh && 0 <= x < bw implies !#[trigger] pixel_changed(
        last,
        cur,
        pixel_offset(width, bx, by, x, y),
        threshold,
    ) by {
        let i = pixel_offset(width, bx, by, x, y);
        if i + 3 < last.len() && i + 3 < cur.len() {
            assert(abs_diff(last[i], cur[i]) <= threshold);
        }
    }
    lemma_block_none_changed(last, cur, width, bx, by, bw, bh, threshold);
    assert((bw * bh) / 50 >= 0) by (nonlinear_arith);
}

proof fn lemma_block_changes_same(d: Seq<u8>, width: int, bx: int, by: int, bw: nat, rows: nat, threshold: u32)
    ensures
        block_changes(d, d, width, bx, by, bw, rows, threshold) == 0,
    decreases rows,
{
    if rows > 0 {
        lemma_block_changes_same(d, width, bx, by, bw, (rows - 1) as nat, threshold);
        lemma_row_changes_same(d, (by + rows - 1) * width + bx, bw, threshold);
    }
}

proof fn lemma_changes_from_same(d: Seq<u8>, width: u32, height: u32, bx: int, by: int)
    ensures
        changes_from(d, d, width, height, bx, by) == Ok::<Seq<RegionView>, ScreenError>(Seq::empty()),
    decreases gap(height as int, by), gap(width as int, bx),
{
    if by < 0 || bx < 0 || by >= height {
    } else if bx >= width {
        lemma_changes_from_same(d, width, height, 0, by + BLOCK_SIZE);
    } else {
        let bw = block_extent(width as int, bx);
        let bh = block_extent(height as int, by);
        lemma_block_changes_same(d, width as int, bx, by, bw, bh, CHANGE_THRESHOLD as u32);
        assert(!block_changed_spec(d, d, width as int, bx, by, bw, bh, CHANGE_THRESHOLD as u32)) by {
            assert((bw * bh) / 50 >= 0) by (nonlinear_arith);
        }
        lemma_changes_from_same(d, width, height, bx + BLOCK_SIZE, by);
    }
}

/// A frame compared with an identical one has no changed region: an
/// unchanged screen sends an empty diff.
pub proof fn law_unchanged_frame_has_no_regions(data: Seq<u8>, width: u32, height: u32)
    ensures
        changes_spec(data, data, width, height) == Ok::<Seq<RegionView>, ScreenError>(Seq::empty()),
{
    lemma_changes_from_same(data, width, height, 0, 0);
}

/// A block inside a frame of at most 2^30 pixels keeps its offsets in `u32`.
proof fn lemma_block_inside_frame(width: u32, height: u32, bx: u32, by: u32, bw: u32, bh: u32)
    requires
        width * height <= 0x4000_0000,
        bx + bw <= width,
        by + bh <= height,
        bw <= BLOCK_SIZE,
        bh <= BLOCK_SIZE,
    ensures
        block_in_u32(width, bx, by, bw, bh),
{
    assert(bw * bh <= 4096) by (nonlinear_arith)
        requires
            bw <= 64,
            bh <= 64,
    ;
    if bw > 0 && bh > 0 {
        assert((by + bh - 1) * width + bx + bw - 1 <= width * height - 1) by (nonlinear_arith)
            requires
                bx + bw <= width,
                by + bh <= height,
                bw > 0,
                bh > 0,
        ;
    }
}

pub open spec fn opt_region_view(r: Result<Option<ChangedRegion>, ScreenError>) -> Result<Option<RegionView>, ScreenError> {
    match r {
        Ok(Some(c)) => Ok(Some(c@)),
        Ok(None) => Ok(None),
        Err(e) => Err(e),
    }
}

impl ScreenCaptureService {
    /// The region of the block at (`bx`, `by`) if it changed: the block's
    /// pixels encoded as JPEG at quality 45, in Base64.
    fn changed_block(
        &self,
        last_frame: &ScreenFrame,
        current_frame: &ScreenFrame,
        bx: u32,
        by: u32,
    ) -> (r: Result<Option<ChangedRegion>, ScreenError>)
        requires
            current_frame.width * current_frame.height <= 0x4000_0000,
            bx < current_frame.width,
            by < current_frame.height,
        ensures
            opt_region_view(r) == block_region(
                last_frame.data@,
                current_frame.data@,
                current_frame.width,
                bx as int,
                by as int,
                block_extent(current_frame.width as int, bx as int),
                block_extent(current_frame.height as int, by as int),
            ),
            r is Ok,
    {
        let width = current_frame.width;
        let height = current_frame.height;
        let block_width = if width - bx < BLOCK_SIZE {
            width - bx
        } else {
            BLOCK_SIZE
        };
        let block_height = if height - by < BLOCK_SIZE {
            height - by
        } else {
            BLOCK_SIZE
        };
        proof {
            lemma_block_inside_frame(width, height, bx, by, block_width, block_height);
        }
        if !self.block_has_changed(
            &last_frame.data,
            &current_frame.data,
            width,
            bx,
            by,
            block_width,
            block_height,
            CHANGE_THRESHOLD,
        ) {
            return Ok(None);
        }
        let block_data = self.extract_block_data(&current_frame.data, width, bx, by, block_width, block_height);
        proof {
            lemma_block_bytes_len(
                current_frame.data@,
                width as int,
                bx as int,
                by as int,
                block_width as nat,
                block_height as nat,
            );
            assert(block_height * block_width == block_width * block_height) by (nonlinear_arith);
        }
        match encode_jpeg(&block_data, block_width, block_height, BLOCK_JPEG_QUALITY) {
            Err(e) => Err(e),
            Ok(jpeg_data) => {
                let base64_data = base64_encode(&jpeg_data);
                Ok(
                    Some(
                        ChangedRegion {
                            x: bx,
                            y: by,
                            width: block_width,
                            height: block_height,
                            data: base64_data,
                        },
                    ),
                )
            },
        }
    }

    /// The regions in which two frames of the same size differ. The frames are
    /// cut into 64-pixel square blocks (smaller at the right and bottom edges),
    /// visited row by row; a block that changed (see `block_has_changed`, with
    /// threshold 10) is copied out, encoded as JPEG at quality 45 and Base64.
    /// Frames of different sizes give `FrameSizeMismatch`; an encoder failure
    /// gives `Encode`.
    pub fn detect_changes(&self, last_frame: &ScreenFrame, current_frame: &ScreenFrame) -> (r: Result<
        Vec<ChangedRegion>,
        ScreenError,
    >)
        requires
            current_frame.width * current_frame.height <= 0x4000_0000,
        ensures
            (last_frame.width != current_frame.width || last_frame.height != current_frame.height)
                ==> r == Err::<Vec<ChangedRegion>, ScreenError>(ScreenError::FrameSizeMismatch),
            (last_frame.width == current_frame.width && last_frame.height == current_frame.height)
                ==> r is Ok,
            (last_frame.width == current_frame.width && last_frame.height == current_frame.height)
                ==> regions_result_view(r) == changes_spec(
                last_frame.data@,
                current_frame.data@,
                current_frame.width,
                current_frame.height,
            ),
    {
        if last_frame.width != current_frame.width || last_frame.height != current_frame.height {
            return Err(ScreenError::FrameSizeMismatch);
        }
        let width = current_frame.width;
        let height = current_frame.height;
        let ghost last = last_frame.data@;
        let ghost cur = current_frame.data@;
        let mut changed_regions: Vec<ChangedRegion> = Vec::new();
        let mut block_y: u64 = 0;
        while block_y < height as u64
            invariant
                width * height <= 0x4000_0000,
                width == current_frame.width,
                height == current_frame.height,
                width == last_frame.width,
                height == last_frame.height,
                last == last_frame.data@,
                cur == current_frame.data@,
                block_y <= height + BLOCK_SIZE,
                changes_spec(last, cur, width, height) == prepend_regions(
                    regions_view(changed_regions@),
                    changes_from(last, cur, width, height, 0, block_y as int),
                ),
            decreases height + BLOCK_SIZE - block_y,
        {
            let mut block_x: u64 = 0;
            while block_x < width as u64
                invariant
                    width * height <= 0x4000_0000,
                    width == current_frame.width,
                    height == current_frame.height,
                    width == last_frame.width,
                    height == last_frame.height,
                    last == last_frame.data@,
                    cur == current_frame.data@,
                    block_y < height,
                    block_x <= width + BLOCK_SIZE,
                    changes_spec(last, cur, width, height) == prepend_regions(
                        regions_view(changed_regions@),
                        changes_from(last, cur, width, height, block_x as int, block_y as int),
                    ),
                decreases width + BLOCK_SIZE - block_x,
            {
                let ghost rest = changes_from(last, cur, width, height, block_x + BLOCK_SIZE, block_y as int);
                let ghost prefix = regions_view(changed_regions@);
                match self.changed_block(last_frame, current_frame, block_x as u32, block_y as u32) {
                    Err(e) => {
                        return Err(e);
                    },
                    Ok(None) => {},
                    Ok(Some(region)) => {
                        changed_regions.push(region);
                        proof {
                            assert(regions_view(changed_regions@) == prefix.push(region@));
                            if rest is Ok {
                                assert(prefix.push(region@) + rest->Ok_0 == prefix + (seq![region@]
                                    + rest->Ok_0));
                            }
                        }
                    },
                }
                block_x = block_x + BLOCK_SIZE as u64;
            }
            block_y = block_y + BLOCK_SIZE as u64;
        }
        Ok(changed_regions)
    }
}

/// Geometry of a nearest-neighbour downscale: a `width` by `height` source of
/// four-byte pixels read at every `x_step`-th column and `y_step`-th row.
pub struct ScaleGeometry {
    pub width: u32,
    pub height: u32,
    pub target_width: u32,
    pub target_height: u32,
    pub x_step: u32,
    pub y_step: u32,
}

impl ScaleGeometry {
    /// The geometry the scaler uses: steps are the integer ratios of source to
    /// target size; source and target are non-empty, and rows and target
    /// images stay within `u32` byte offsets.
    pub open spec fn valid(self) -> bool {
        &&& self.width > 0
        &&& self.height > 0
        &&& self.target_width > 0
        &&& self.target_height > 0
        &&& self.width * 4 <= u32::MAX
        &&& self.target_width * self.target_height * 4 <= u32::MAX
        &&& self.x_step == self.width / self.target_width
        &&& self.y_step == self.height / self.target_height
    }
}

pub open spec fn min_int(a: int, b: int) -> int {
    if a < b {
        a
    } else {
        b
    }
}

/// The four bytes of target pixel (`x`, `y`): source pixel
/// (`min(x * x_step, width - 1)`, `min(y * y_step, height - 1)`), or zeros
/// where the source buffer ends before it.
pub open spec fn scaled_pixel(data: Seq<u8>, g: ScaleGeometry, x: int, y: int) -> Seq<u8> {
    let src_y = min_int(y * g.y_step, g.height - 1);
    let src_x = min_int(x * g.x_step, g.width - 1);
    let i = src_y * (g.width * 4) + src_x * 4;
    if i + 3 < data.len() {
        seq![data[i], data[i + 1], data[i + 2], data[i + 3]]
    } else {
        seq![0u8, 0u8, 0u8, 0u8]
    }
}

/// The first `cols` pixels of target row `y`.
pub open spec fn scaled_row(data: Seq<u8>, g: ScaleGeometry, y: int, cols: nat) -> Seq<u8>
    decreases cols,
{
    if cols == 0 {
        Seq::empty()
    } else {
        scaled_row(data, g, y, (cols - 1) as nat) + scaled_pixel(data, g, cols - 1, y)
    }
}

/// Target rows `start` up to (excluding) `end`, one after another.
pub open spec fn scaled_rows(data: Seq<u8>, g: ScaleGeometry, start: int, end: int) -> Seq<u8>
    decreases end - start,
{
    if end <= start {
        Seq::empty()
    } else {
        scaled_rows(data, g, start, end - 1) + scaled_row(data, g, end - 1, g.target_width as nat)
    }
}

/// Rows from `a` to `b` followed by rows from `b` to `c` are the rows from `a` to `c`.
pub proof fn lemma_scaled_rows_split(data: Seq<u8>, g: ScaleGeometry, a: int, b: int, c: int)
    requires
        a <= b <= c,
    ensures
        scaled_rows(data, g, a, b) + scaled_rows(data, g, b, c) == scaled_rows(data, g, a, c),
    decreases c - b,
{
    if c == b {
        assert(scaled_rows(data, g, a, b) + scaled_rows(data, g, b, c) == scaled_rows(data, g, a, b));
    } else {
        lemma_scaled_rows_split(data, g, a, b, c - 1);
        assert(scaled_rows(data, g, a, b) + scaled_rows(data, g, b, c) == scaled_rows(data, g, a, b)
            + scaled_rows(data, g, b, c - 1) + scaled_row(data, g, c - 1, g.target_width as nat));
    }
}

/// Target rows `start_y..end_y` of a nearest-neighbour downscale.
pub fn scale_rows(data: &[u8], g: &ScaleGeometry, start_y: u32, end_y: u32) -> (r: Vec<u8>)
    requires
        g.valid(),
        start_y <= end_y <= g.target_height,
    ensures
        r@ == scaled_rows(data@, *g, start_y as int, end_y as int),
{
    let mut out: Vec<u8> = Vec::new();
    let mut y = start_y;
    let row_bytes = (g.width * 4) as u64;
    while y < end_y
        invariant
            g.valid(),
            start_y <= y <= end_y <= g.target_height,
            row_bytes == g.width * 4,
            out@ == scaled_rows(data@, *g, start_y as int, y as int),
        decreases end_y - y,
    {
        assert(y * g.y_step <= g.height) by (nonlinear_arith)
            requires
                y < g.target_height,
                g.target_height > 0,
                g.y_step == g.height / g.target_height,
        ;
        let scaled_y = y * g.y_step;
        let src_y = if scaled_y < g.height - 1 {
            scaled_y
        } else {
            g.height - 1
        };
        assert(src_y as int * row_bytes <= u64::MAX - 0x1_0000_0000) by (nonlinear_arith)
            requires
                src_y < 0x1_0000_0000,
                row_bytes < 0x1_0000_0000,
        ;
        let src_row_offset = (src_y as u64) * row_bytes;
        let ghost before = out@;
        let mut x: u32 = 0;
        while x < g.target_width
            invariant
                g.valid(),
                y < g.target_height,
                row_bytes == g.width * 4,
                src_y == min_int(y * g.y_step, g.height - 1),
                src_row_offset == src_y * row_bytes,
                src_row_offset <= u64::MAX - 0x1_0000_0000,
                x <= g.target_width,
                out@ == before + scaled_row(data@, *g, y as int, x as nat),
            decreases g.target_width - x,
        {
            assert(x * g.x_step <= g.width) by (nonlinear_arith)
                requires
                    x < g.target_width,
                    g.target_width > 0,
                    g.x_step == g.width / g.target_width,
            ;
            let scaled_x = x * g.x_step;
            let src_x = if scaled_x < g.width - 1 {
                scaled_x
            } else {
                g.width - 1
            };
            let src_idx = src_row_offset + (src_x as u64) * 4;
            if src_idx + 3 < data.len() as u64 {
                let k = src_idx as usize;
                out.push(data[k]);
                out.push(data[k + 1]);
                out.push(data[k + 2]);
                out.push(data[k + 3]);
            } else {
                out.push(0);
                out.push(0);
                out.push(0);
                out.push(0);
            }
            x = x + 1;
            assert(out@ == before + scaled_row(data@, *g, y as int, x as nat));
        }
        y = y + 1;
    }
    out
}

/// The geometry that scaling `width` by `height` to `target_width` by
/// `target_height` uses.
pub open spec fn geometry_for(width: u32, height: u32, target_width: u32, target_height: u32) -> ScaleGeometry {
    ScaleGeometry {
        width,
        height,
        target_width,
        target_height,
        x_step: (width / target_width) as u32,
        y_step: (height / target_height) as u32,
    }
}

/// A frame brought to the target resolution: unchanged when it already has
/// it, otherwise all target rows of the nearest-neighbour downscale.
pub open spec fn scaled_image(data: Seq<u8>, width: u32, height: u32, target_width: u32, target_height: u32) -> Seq<u8> {
    if width == target_width && height == target_height {
        data
    } else {
        scaled_rows(data, geometry_for(width, height, target_width, target_height), 0, target_height as int)
    }
}

/// Row ranges that follow each other without gap from row 0 up to `end`.
pub open spec fn chunks_cover(cs: Seq<(u32, u32)>, end: int) -> bool
    decreases cs.len(),
{
    if cs.len() == 0 {
        end == 0
    } else {
        &&& cs.last().1 == end
        &&& cs.last().0 <= cs.last().1
        &&& chunks_cover(cs.drop_last(), cs.last().0 as int)
    }
}

/// The target rows of each range, one range after another.
pub open spec fn chunk_rows(data: Seq<u8>, g: ScaleGeometry, cs: Seq<(u32, u32)>) -> Seq<u8>
    decreases cs.len(),
{
    if cs.len() == 0 {
        Seq::empty()
    } else {
        chunk_rows(data, g, cs.drop_last()) + scaled_rows(data, g, cs.last().0 as int, cs.last().1 as int)
    }
}

/// Row ranges that cover rows `0..end` yield exactly the rows `0..end`.
pub proof fn lemma_chunk_rows_cover(data: Seq<u8>, g: ScaleGeometry, cs: Seq<(u32, u32)>, end: int)
    requires
        chunks_cover(cs, end),
    ensures
        chunk_rows(data, g, cs) == scaled_rows(data, g, 0, end),
    decreases cs.len(),
{
    if cs.len() > 0 {
        let l = cs.last();
        lemma_chunk_rows_cover(data, g, cs.drop_last(), l.0 as int);
        lemma_chunks_cover_nonneg(cs.drop_last(), l.0 as int);
        lemma_scaled_rows_split(data, g, 0, l.0 as int, l.1 as int);
    }
}

proof fn lemma_chunks_cover_nonneg(cs: Seq<(u32, u32)>, end: int)
    requires
        chunks_cover(cs, end),
    ensures
        0 <= end,
        forall|i: int| 0 <= i < cs.len() ==> #[trigger] cs[i].1 <= end,
    decreases cs.len(),
{
    if cs.len() > 0 {
        lemma_chunks_cover_nonneg(cs.drop_last(), cs.last().0 as int);
        assert forall|i: int| 0 <= i < cs.len() implies #[trigger] cs[i].1 <= end by {
            if i < cs.len() - 1 {
                assert(cs[i] == cs.drop_last()[i]);
            }
        }
    }
}

/// Number of available logical CPUs, from `num_cpus::get`.
/// Trusted: the crate documents that the count is always at least one.
#[verifier::external_body]
fn available_cpus() -> (r: usize)
    ensures
        r >= 1,
{
    num_cpus::get()
}

/// Scales every range of target rows with `scale_rows`, in parallel, with
/// rayon's `into_par_iter().map(..).collect()`.
/// Trusted: an indexed parallel iterator collects into a `Vec` in the order of
/// its items, so the result holds, range by range, what `scale_rows` returns.
#[verifier::external_body]
fn par_scale_chunks(data: &[u8], g: &ScaleGeometry, chunks: Vec<(u32, u32)>) -> (r: Vec<Vec<u8>>)
    requires
        g.valid(),
        forall|i: int| 0 <= i < chunks@.len() ==> (#[trigger] chunks@[i]).0 <= chunks@[i].1 <= g.target_height,
    ensures
        r@.len() == chunks@.len(),
        forall|i: int|
            0 <= i < chunks@.len() ==> #[trigger] r@[i]@ == scaled_rows(
                data@,
                *g,
                chunks@[i].0 as int,
                chunks@[i].1 as int,
            ),
{
    chunks.into_par_iter().map(|(start_y, end_y)| scale_rows(data, g, start_y, end_y)).collect()
}

impl ScreenCaptureService {
    /// Brings a frame to the target resolution: a frame that already has it is
    /// returned as it is; otherwise each target pixel is the source pixel at
    /// the integer step ratios (see `scaled_pixel`). The rows are cut into one
    /// range per available CPU and scaled in parallel; the result does not
    /// depend on that cut.
    pub fn scale_frame_if_needed(
        &self,
        width: u32,
        height: u32,
        rgba_data: Vec<u8>,
        target_width: u32,
        target_height: u32,
    ) -> (r: (u32, u32, Vec<u8>))
        requires
            (width != target_width || height != target_height) ==> geometry_for(
                width,
                height,
                target_width,
                target_height,
            ).valid(),
        ensures
            r.0 == target_width,
            r.1 == target_height,
            r.2@ == scaled_image(rgba_data@, width, height, target_width, target_height),
    {
        if width == target_width && height == target_height {
            return (width, height, rgba_data);
        }
        let g = ScaleGeometry {
            width,
            height,
            target_width,
            target_height,
            x_step: width / target_width,
            y_step: height / target_height,
        };
        let cpus = available_cpus();
        let num_cores: u32 = if cpus > 0xffff_ffffusize {
            0xffff_ffff
        } else {
            cpus as u32
        };
        let per_core = target_height / num_cores;
        let rows_per_chunk: u32 = if per_core > 1 {
            per_core
        } else {
            1
        };
        assert(per_core <= target_height) by (nonlinear_arith)
            requires
                num_cores >= 1,
                per_core == target_height / num_cores,
        ;
        assert(target_height <= 0x4000_0000) by (nonlinear_arith)
            requires
                target_width > 0,
                target_width * target_height * 4 <= u32::MAX,
        ;
        let mut chunks: Vec<(u32, u32)> = Vec::new();
        let mut start_y: u32 = 0;
        while start_y < target_height
            invariant
                g.valid(),
                g.target_height == target_height,
                1 <= rows_per_chunk <= 0x4000_0000,
                target_height <= 0x4000_0000,
                start_y <= target_height + 0x4000_0000,
                chunks_cover(chunks@, min_int(start_y as int, target_height as int)),
                forall|i: int|
                    0 <= i < chunks@.len() ==> (#[trigger] chunks@[i]).0 <= chunks@[i].1 <= target_height,
            decreases target_height + 0x4000_0000 - start_y,
        {
            let end_y = if start_y + rows_per_chunk < target_height {
                start_y + rows_per_chunk
            } else {
                target_height
            };
            let ghost before = chunks@;
            chunks.push((start_y, end_y));
            assert(chunks@.drop_last() == before);
            start_y = start_y + rows_per_chunk;
        }
        let ghost cs = chunks@;
        let output_chunks = par_scale_chunks(&rgba_data, &g, chunks);
        let mut resized_data: Vec<u8> = Vec::new();
        let mut k: usize = 0;
        while k < output_chunks.len()
            invariant
                output_chunks@.len() == cs.len(),
                k <= cs.len(),
                forall|i: int|
                    0 <= i < cs.len() ==> #[trigger] output_chunks@[i]@ == scaled_rows(
                        rgba_data@,
                        g,
                        cs[i].0 as int,
                        cs[i].1 as int,
                    ),
                resized_data@ == chunk_rows(rgba_data@, g, cs.take(k as int)),
            decreases cs.len() - k,
        {
            let chunk = &output_chunks[k];
            let ghost before = resized_data@;
            let mut i: usize = 0;
            while i < chunk.len()
                invariant
                    i <= chunk@.len(),
                    resized_data@ == before + chunk@.take(i as int),
                decreases chunk@.len() - i,
            {
                resized_data.push(chunk[i]);
                i = i + 1;
                assert(resized_data@ == before + chunk@.take(i as int));
            }
            assert(chunk@.take(i as int) == chunk@);
            assert(cs.take(k + 1).drop_last() == cs.take(k as int));
            k = k + 1;
        }
        proof {
            assert(cs.take(k as int) == cs);
            lemma_chunk_rows_cover(rgba_data@, g, cs, target_height as int);
        }
        (target_width, target_height, resized_data)
    }
}

/// A scaled row of `cols` pixels holds four bytes per pixel.
pub proof fn lemma_scaled_row_len(data: Seq<u8>, g: ScaleGeometry, y: int, cols: nat)
    ensures
        scaled_row(data, g, y, cols).len() == 4 * cols,
    decreases cols,
{
    if cols > 0 {
        lemma_scaled_row_len(data, g, y, (cols - 1) as nat);
    }
}

/// Scaled rows `start..end` hold `4 * target_width` bytes per row.
pub proof fn lemma_scaled_rows_len(data: Seq<u8>, g: ScaleGeometry, start: int, end: int)
    requires
        start <= end,
    ensures
        scaled_rows(data, g, start, end).len() == 4 * g.target_width * (end - start),
    decreases end - start,
{
    if end > start {
        lemma_scaled_rows_len(data, g, start, end - 1);
        lemma_scaled_row_len(data, g, end - 1, g.target_width as nat);
        assert(4 * g.target_width * (end - start) == 4 * g.target_width * (end - 1 - start) + 4
            * g.target_width) by (nonlinear_arith);
    } else {
        assert(4 * g.target_width * (end - start) == 0) by (nonlinear_arith)
            requires
                end == start,
        ;
    }
}

/// Quality of a full-frame JPEG image.
pub const FULL_JPEG_QUALITY: u8 = 35;

/// A full frame goes out every this many frames.
pub const FULL_FRAME_INTERVAL: u32 = 30;

/// A frame in the model: its bytes and size.
pub struct FrameView {
    pub data: Seq<u8>,
    pub width: u32,
    pub height: u32,
}

impl View for ScreenFrame {
    type V = FrameView;

    open spec fn view(&self) -> FrameView {
        FrameView { data: self.data@, width: self.width, height: self.height }
    }
}

pub open spec fn opt_frame_view(f: Option<ScreenFrame>) -> Option<FrameView> {
    match f {
        Some(fr) => Some(fr@),
        None => None,
    }
}

/// What one processed frame yields: Base64 JPEG text (empty for a diff), size,
/// format name, whether it is a full frame, and the changed regions of a diff.
pub struct CaptureView {
    pub data: Seq<char>,
    pub width: u32,
    pub height: u32,
    pub format: Seq<char>,
    pub is_full_frame: bool,
    pub regions: Option<Seq<RegionView>>,
}

pub open spec fn capture_view(o: (String, u32, u32, String, bool, Option<Vec<ChangedRegion>>)) -> CaptureView {
    CaptureView {
        data: o.0@,
        width: o.1,
        height: o.2,
        format: o.3@,
        is_full_frame: o.4,
        regions: match o.5 {
            Some(rs) => Some(regions_view(rs@)),
            None => None,
        },
    }
}

pub open spec fn capture_result_view(
    r: Result<(String, u32, u32, String, bool, Option<Vec<ChangedRegion>>), ScreenError>,
) -> Result<CaptureView, ScreenError> {
    match r {
        Ok(o) => Ok(capture_view(o)),
        Err(e) => Err(e),
    }
}

/// The regions in which `cur` differs from `last`; frames of different sizes
/// cannot be compared.
pub open spec fn frame_changes(last: FrameView, cur: FrameView) -> Result<Seq<RegionView>, ScreenError> {
    if last.width != cur.width || last.height != cur.height {
        Err(ScreenError::FrameSizeMismatch)
    } else {
        changes_spec(last.data, cur.data, cur.width, cur.height)
    }
}

/// The frame numbered `count` (from one) is sent whole when no frame was sent
/// before or when it is the first of a group of thirty.
pub open spec fn full_frame_due(count: int, last: Option<FrameView>) -> bool {
    count % (FULL_FRAME_INTERVAL as int) == 1 || last is None
}

/// One step of screen capture, from the last frame kept, the frame number and
/// the new (scaled) frame, to what is sent and the frame kept next. A full
/// frame is the Base64 of its JPEG image at quality 35 and is kept. Otherwise
/// the changed regions are sent, with empty text; the new frame is kept only
/// when some region changed. An error keeps the last frame.
pub open spec fn capture_step(last: Option<FrameView>, count: int, cur: FrameView) -> (
    Result<CaptureView, ScreenError>,
    Option<FrameView>,
) {
    if full_frame_due(count, last) {
        match encode_jpeg_spec(cur.data, cur.width, cur.height, FULL_JPEG_QUALITY) {
            Ok(j) => (
                Ok(
                    CaptureView {
                        data: base64_spec(j),
                        width: cur.width,
                        height: cur.height,
                        format: "jpeg"@,
                        is_full_frame: true,
                        regions: None,
                    },
                ),
                Some(cur),
            ),
            Err(e) => (Err(e), last),
        }
    } else {
        match frame_changes(last.unwrap(), cur) {
            Err(e) => (Err(e), last),
            Ok(rs) => (
                Ok(
                    CaptureView {
                        data: Seq::empty(),
                        width: cur.width,
                        height: cur.height,
                        format: "diff"@,
                        is_full_frame: false,
                        regions: Some(rs),
                    },
                ),
                if rs.len() == 0 {
                    last
                } else {
                    Some(cur)
                },
            ),
        }
    }
}

/// Outside the full-frame schedule, a frame identical to the one kept sends
/// an empty diff and leaves the kept frame as it is.
pub proof fn law_repeated_frame_sends_empty_diff(f: FrameView, count: int)
    requires
        count % (FULL_FRAME_INTERVAL as int) != 1,
    ensures
        capture_step(Some(f), count, f) == (
            Ok::<CaptureView, ScreenError>(
                CaptureView {
                    data: Seq::empty(),
                    width: f.width,
                    height: f.height,
                    format: "diff"@,
                    is_full_frame: false,
                    regions: Some(Seq::empty()),
                },
            ),
            Some(f),
        ),
{
    law_unchanged_frame_has_no_regions(f.data, f.width, f.height);
}

/// The frame kept after the first `n` frames of a run from a fresh service
/// (`frames` are the scaled frames, in order).
pub open spec fn kept_after(frames: Seq<FrameView>, n: nat) -> Option<FrameView>
    decreases n,
{
    if n == 0 {
        None
    } else {
        capture_step(kept_after(frames, (n - 1) as nat), n as int, frames[n - 1]).1
    }
}

/// What the `k`-th frame (from one) of a run from a fresh service sends.
pub open spec fn output_at(frames: Seq<FrameView>, k: nat) -> Result<CaptureView, ScreenError> {
    capture_step(kept_after(frames, (k - 1) as nat), k as int, frames[k - 1]).0
}

proof fn lemma_kept_stays(frames: Seq<FrameView>, n: nat)
    requires
        1 <= n,
        output_at(frames, 1) is Ok,
    ensures
        kept_after(frames, n) is Some,
    decreases n,
{
    if n > 1 {
        lemma_kept_stays(frames, (n - 1) as nat);
    }
}

/// Over a run from a fresh service whose first frame went out: the `k`-th
/// frame is sent whole exactly when `k % 30 == 1` (when it is sent at all);
/// every other frame is the diff against the frame kept, with empty text, and
/// the kept frame becomes the new one exactly when some region changed.
pub proof fn law_full_frame_schedule(frames: Seq<FrameView>, k: nat)
    requires
        1 <= k <= frames.len(),
        output_at(frames, 1) is Ok,
    ensures
        output_at(frames, k) matches Ok(o) ==> (o.is_full_frame <==> (k as int) % (FULL_FRAME_INTERVAL as int) == 1),
        (k as int) % (FULL_FRAME_INTERVAL as int) == 1 ==> (output_at(frames, k) matches Ok(o) ==> o.format == "jpeg"@
            && o.regions is None && kept_after(frames, k) == Some(frames[k - 1])),
        (k as int) % (FULL_FRAME_INTERVAL as int) != 1 ==> ({
            let last = kept_after(frames, (k - 1) as nat).unwrap();
            match frame_changes(last, frames[k - 1]) {
                Ok(rs) => output_at(frames, k) == Ok::<CaptureView, ScreenError>(
                    CaptureView {
                        data: Seq::empty(),
                        width: frames[k - 1].width,
                        height: frames[k - 1].height,
                        format: "diff"@,
                        is_full_frame: false,
                        regions: Some(rs),
                    },
                ) && kept_after(frames, k) == (if rs.len() == 0 {
                    Some(last)
                } else {
                    Some(frames[k - 1])
                }),
                Err(e) => output_at(frames, k) == Err::<CaptureView, ScreenError>(e) && kept_after(frames, k)
                    == Some(last),
            }
        }),
{
    if k > 1 {
        lemma_kept_stays(frames, (k - 1) as nat);
    }
}

impl ScreenCaptureService {
    /// A service that has processed no frame yet.
    pub fn new() -> (r: Self)
        ensures
            r.frame_count() == 0,
            r.last_frame_view() is None,
    {
        ScreenCaptureService { last_frame: None, frame_count: 0 }
    }

    pub closed spec fn frame_count(&self) -> u32 {
        self.frame_count
    }

    pub closed spec fn last_frame_view(&self) -> Option<FrameView> {
        opt_frame_view(self.last_frame)
    }

    /// Number of frames processed so far.
    pub fn frames_processed(&self) -> (r: u32)
        ensures
            r == self.frame_count(),
    {
        self.frame_count
    }

    /// Sends a full frame: the Base64 of its JPEG image at quality 35.
    fn send_full_frame(&mut self, current_frame: ScreenFrame) -> (r: Result<
        (String, u32, u32, String, bool, Option<Vec<ChangedRegion>>),
        ScreenError,
    >)
        requires
            current_frame.data@.len() / 4 <= current_frame.width * current_frame.height,
        ensures
            final(self).frame_count == old(self).frame_count,
            match encode_jpeg_spec(
                current_frame.data@,
                current_frame.width,
                current_frame.height,
                FULL_JPEG_QUALITY,
            ) {
                Ok(j) => capture_result_view(r) == Ok::<CaptureView, ScreenError>(
                    CaptureView {
                        data: base64_spec(j),
                        width: current_frame.width,
                        height: current_frame.height,
                        format: "jpeg"@,
                        is_full_frame: true,
                        regions: None,
                    },
                ) && opt_frame_view(final(self).last_frame) == Some(current_frame@),
                Err(e) => r == Err::<(String, u32, u32, String, bool, Option<Vec<ChangedRegion>>), ScreenError>(e)
                    && final(self).last_frame == old(self).last_frame,
            },
    {
        let width = current_frame.width;
        let height = current_frame.height;
        let jpeg_data = match encode_jpeg(&current_frame.data, width, height, FULL_JPEG_QUALITY) {
            Ok(j) => j,
            Err(e) => {
                return Err(e);
            },
        };
        let base64_data = base64_encode(&jpeg_data);
        self.last_frame = Some(current_frame);
        Ok((base64_data, width, height, crate::text::owned("jpeg"), true, None))
    }

    /// Processes one captured frame of `original_width` by `original_height`
    /// BGRA pixels: brings it to the target resolution (see
    /// `scale_frame_if_needed`), counts it, and sends either the whole frame
    /// or the regions that changed since the frame last kept, as
    /// `capture_step` says. The target resolution is the capture side's
    /// choice (at most 1280x720 worth of pixels, or the frame's own size
    /// below that), so it stays within 2^30 pixels.
    pub fn process_frame(
        &mut self,
        original_width: u32,
        original_height: u32,
        bgra_data: Vec<u8>,
        target_width: u32,
        target_height: u32,
    ) -> (r: Result<(String, u32, u32, String, bool, Option<Vec<ChangedRegion>>), ScreenError>)
        requires
            old(self).frame_count() < u32::MAX,
            target_width * target_height <= 0x4000_0000,
            (original_width != target_width || original_height != target_height) ==> geometry_for(
                original_width,
                original_height,
                target_width,
                target_height,
            ).valid(),
            (original_width == target_width && original_height == target_height) ==> bgra_data@.len()
                / 4 <= original_width * original_height,
        ensures
            final(self).frame_count() == old(self).frame_count() + 1,
            ({
                let cur = FrameView {
                    data: scaled_image(
                        bgra_data@,
                        original_width,
                        original_height,
                        target_width,
                        target_height,
                    ),
                    width: target_width,
                    height: target_height,
                };
                let step = capture_step(old(self).last_frame_view(), old(self).frame_count() + 1, cur);
                &&& capture_result_view(r) == step.0
                &&& final(self).last_frame_view() == step.1
            }),
    {
        let ghost cur_data = scaled_image(
            bgra_data@,
            original_width,
            original_height,
            target_width,
            target_height,
        );
        let (width, height, rgba_data) = self.scale_frame_if_needed(
            original_width,
            original_height,
            bgra_data,
            target_width,
            target_height,
        );
        proof {
            if original_width != target_width || original_height != target_height {
                lemma_scaled_rows_len(
                    bgra_data@,
                    geometry_for(original_width, original_height, target_width, target_height),
                    0,
                    target_height as int,
                );
                assert(4 * target_width * target_height == 4 * (target_width * target_height))
                    by (nonlinear_arith);
            }
        }
        let current_frame = ScreenFrame { data: rgba_data, width, height };
        self.frame_count = self.frame_count + 1;
        let force_full_frame = self.frame_count % FULL_FRAME_INTERVAL == 1 || self.last_frame.is_none();
        if force_full_frame {
            return self.send_full_frame(current_frame);
        }
        match &self.last_frame {
            None => self.send_full_frame(current_frame),
            Some(last_frame) => {
                match self.detect_changes(last_frame, &current_frame) {
                    Err(e) => Err(e),
                    Ok(changed_regions) => {
                        if changed_regions.len() == 0 {
                            Ok((String::new(), width, height, crate::text::owned("diff"), false, Some(changed_regions)))
                        } else {
                            self.last_frame = Some(current_frame);
                            Ok((String::new(), width, height, crate::text::owned("diff"), false, Some(changed_regions)))
                        }
                    },
                }
            },
        }
    }
}

} // verus!
