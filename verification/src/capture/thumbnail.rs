//! Previews of capture sources: from a captured frame to the base64 text of
//! a small JPEG.

use vstd::prelude::*;
use vstd::string::*;
use crate::base64::{base64_text, encode};

verus! {

/// Width that a thumbnail does not exceed.
pub const THUMBNAIL_WIDTH: u32 = 320;

/// Height that a thumbnail does not exceed.
pub const THUMBNAIL_HEIGHT: u32 = 180;

/// JPEG quality of thumbnails, out of 100.
pub const THUMBNAIL_QUALITY: u8 = 75;

/// Interval at which a thumbnail worker asks for a frame, in milliseconds.
pub const THUMBNAIL_POLL_INTERVAL_MS: u64 = 16;

/// Time that all thumbnails together may take, in seconds.
pub const THUMBNAIL_TOTAL_TIMEOUT_SECS: u64 = 10;

/// Where the first byte of the pixel `(x, y)` stands in a frame whose rows
/// are `stride` bytes apart.
pub open spec fn pixel_offset(y: int, x: int, stride: int) -> int {
    y * stride + x * 4
}

/// Where the first byte of the pixel `(x, y)` stands among tightly packed
/// RGB pixels.
pub open spec fn rgb_slot(y: int, x: int, width: int) -> int {
    (y * width + x) * 3
}

/// Whether a frame can be turned into RGB pixels: it has pixels, and the
/// last of them lies within `data`.
pub open spec fn frame_is_whole(data: Seq<u8>, width: int, height: int, stride: int) -> bool {
    &&& width > 0
    &&& height > 0
    &&& pixel_offset(height - 1, width - 1, stride) + 3 < data.len()
}

/// Whether `rgb` holds the pixels of the frame: red, green and blue of each
/// pixel, row by row, without the padding of the rows and without alpha. The
/// frame keeps blue first and red third.
pub open spec fn is_rgb_of(rgb: Seq<u8>, data: Seq<u8>, width: int, height: int, stride: int) -> bool {
    &&& rgb.len() == width * height * 3
    &&& forall|y: int, x: int|
        0 <= y < height && 0 <= x < width ==> {
            &&& rgb[#[trigger] rgb_slot(y, x, width)] == data[pixel_offset(y, x, stride) + 2]
            &&& rgb[rgb_slot(y, x, width) + 1] == data[pixel_offset(y, x, stride) + 1]
            &&& rgb[rgb_slot(y, x, width) + 2] == data[pixel_offset(y, x, stride)]
        }
}

proof fn lemma_slot_order(y1: int, x1: int, y2: int, x2: int, width: int)
    requires
        0 <= x1 < width,
        0 <= x2 <= width,
        0 <= y1,
        y1 < y2 || (y1 == y2 && x1 < x2),
    ensures
        rgb_slot(y1, x1, width) + 3 <= rgb_slot(y2, x2, width),
{
    assert(y1 * width + x1 + 1 <= y2 * width + x2) by (nonlinear_arith)
        requires
            0 <= x1 < width,
            0 <= x2 <= width,
            0 <= y1,
            y1 < y2 || (y1 == y2 && x1 < x2),
    ;
}

proof fn lemma_offset_order(y1: int, x1: int, y2: int, x2: int, stride: int)
    requires
        0 <= x1 <= x2,
        0 <= y1 <= y2,
        0 <= stride,
    ensures
        0 <= pixel_offset(y1, x1, stride) <= pixel_offset(y2, x2, stride),
{
    assert(0 <= y1 * stride <= y2 * stride) by (nonlinear_arith)
        requires
            0 <= y1 <= y2,
            0 <= stride,
    ;
}

/// The RGB pixels of a frame: the byte at `k` is the colour `k % 3` (red,
/// green, blue) of the pixel `k / 3`, counted row by row.
pub open spec fn frame_rgb(data: Seq<u8>, width: int, height: int, stride: int) -> Seq<u8> {
    Seq::new(
        (width * height * 3) as nat,
        |k: int| data[pixel_offset((k / 3) / width, (k / 3) % width, stride) + 2 - k % 3],
    )
}

/// Pixels that hold a frame's colours are the frame's RGB pixels.
proof fn lemma_rgb_is_frame_rgb(rgb: Seq<u8>, data: Seq<u8>, width: int, height: int, stride: int)
    requires
        width > 0,
        height > 0,
        is_rgb_of(rgb, data, width, height, stride),
    ensures
        rgb == frame_rgb(data, width, height, stride),
{
    let expected = frame_rgb(data, width, height, stride);
    assert(width * height * 3 >= 0) by (nonlinear_arith)
        requires
            width > 0,
            height > 0,
    ;
    assert forall|k: int| 0 <= k < rgb.len() implies rgb[k] == expected[k] by {
        let p = k / 3;
        let c = k % 3;
        let y = p / width;
        let x = p % width;
        assert(p < width * height);
        assert(0 <= y < height && 0 <= x < width && p == y * width + x) by (nonlinear_arith)
            requires
                0 <= p < width * height,
                width > 0,
                y == p / width,
                x == p % width,
        ;
        assert(rgb_slot(y, x, width) == p * 3);
        assert(k == rgb_slot(y, x, width) + c);
    }
    assert(rgb =~= expected);
}

/// Takes the RGB pixels out of a captured frame: the padding at the end of
/// each row and the alpha of each pixel are dropped, and red and blue change
/// places. `None` for a frame without pixels, and for one whose data ends
/// before its last pixel.
pub fn frame_to_rgb(data: &[u8], width: i32, height: i32, stride: u32) -> (rgb: Option<Vec<u8>>)
    ensures
        rgb is Some <==> frame_is_whole(data@, width as int, height as int, stride as int),
        rgb matches Some(pixels) ==> is_rgb_of(
            pixels@,
            data@,
            width as int,
            height as int,
            stride as int,
        ),
        rgb matches Some(pixels) ==> pixels@ == frame_rgb(
            data@,
            width as int,
            height as int,
            stride as int,
        ),
{
    if width <= 0 || height <= 0 {
        return None;
    }
    let w: u64 = width as u64;
    let h: u64 = height as u64;
    let s: u64 = stride as u64;
    // The last pixel's last byte: below 2^31 * 2^32 + 2^31 * 4 + 3.
    assert((h - 1) * s + (w - 1) * 4 + 3 < 0x8000_0002_0000_0000) by (nonlinear_arith)
        requires
            0 < w <= 0x7fff_ffff,
            0 < h <= 0x7fff_ffff,
            s <= 0xffff_ffff,
    ;
    let last: u64 = (h - 1) * s + (w - 1) * 4 + 3;
    if last >= data.len() as u64 {
        return None;
    }
    let mut rgb: Vec<u8> = Vec::new();
    let mut y: u64 = 0;
    while y < h
        invariant
            0 < w <= 0x7fff_ffff,
            0 < h <= 0x7fff_ffff,
            s <= 0xffff_ffff,
            y <= h,
            data@.len() <= usize::MAX,
            pixel_offset(h - 1, w - 1, s as int) + 3 < data@.len(),
            rgb@.len() == rgb_slot(y as int, 0, w as int),
            forall|y0: int, x0: int|
                0 <= y0 < y && 0 <= x0 < w ==> {
                    &&& rgb@[#[trigger] rgb_slot(y0, x0, w as int)] == data@[pixel_offset(
                        y0,
                        x0,
                        s as int,
                    ) + 2]
                    &&& rgb@[rgb_slot(y0, x0, w as int) + 1] == data@[pixel_offset(y0, x0, s as int)
                        + 1]
                    &&& rgb@[rgb_slot(y0, x0, w as int) + 2] == data@[pixel_offset(y0, x0, s as int)]
                },
        decreases h - y,
    {
        let mut x: u64 = 0;
        while x < w
            invariant
                0 < w <= 0x7fff_ffff,
                0 < h <= 0x7fff_ffff,
                s <= 0xffff_ffff,
                y < h,
                x <= w,
                data@.len() <= usize::MAX,
                pixel_offset(h - 1, w - 1, s as int) + 3 < data@.len(),
                rgb@.len() == rgb_slot(y as int, x as int, w as int),
                forall|y0: int, x0: int|
                    0 <= x0 < w && (0 <= y0 < y || (y0 == y && x0 < x)) ==> {
                        &&& rgb@[#[trigger] rgb_slot(y0, x0, w as int)] == data@[pixel_offset(
                            y0,
                            x0,
                            s as int,
                        ) + 2]
                        &&& rgb@[rgb_slot(y0, x0, w as int) + 1] == data@[pixel_offset(
                            y0,
                            x0,
                            s as int,
                        ) + 1]
                        &&& rgb@[rgb_slot(y0, x0, w as int) + 2] == data@[pixel_offset(
                            y0,
                            x0,
                            s as int,
                        )]
                    },
            decreases w - x,
        {
            proof {
                lemma_offset_order(y as int, x as int, h - 1, w - 1, s as int);
                assert(0 <= y * s) by (nonlinear_arith)
                    requires
                        0 <= y,
                        0 <= s,
                ;
                assert(y * s + x * 4 == pixel_offset(y as int, x as int, s as int));
                assert(y * s + x * 4 + 3 < data@.len());
            }
            let at: usize = (y * s + x * 4) as usize;
            let ghost before = rgb@;
            rgb.push(data[at + 2]);
            rgb.push(data[at + 1]);
            rgb.push(data[at]);
            proof {
                assert(rgb_slot(y as int, x + 1, w as int) == rgb_slot(y as int, x as int, w as int)
                    + 3) by (nonlinear_arith);
                assert forall|y0: int, x0: int|
                    0 <= x0 < w && (0 <= y0 < y || (y0 == y && x0 < x + 1)) implies {
                    &&& rgb@[#[trigger] rgb_slot(y0, x0, w as int)] == data@[pixel_offset(
                        y0,
                        x0,
                        s as int,
                    ) + 2]
                    &&& rgb@[rgb_slot(y0, x0, w as int) + 1] == data@[pixel_offset(y0, x0, s as int)
                        + 1]
                    &&& rgb@[rgb_slot(y0, x0, w as int) + 2] == data@[pixel_offset(y0, x0, s as int)]
                } by {
                    if y0 == y && x0 == x {
                    } else {
                        lemma_slot_order(y0, x0, y as int, x as int, w as int);
                        assert(rgb_slot(y0, x0, w as int) >= 0) by (nonlinear_arith)
                            requires
                                0 <= y0,
                                0 <= x0,
                                0 < w,
                        ;
                        assert(rgb@[rgb_slot(y0, x0, w as int)] == before[rgb_slot(
                            y0,
                            x0,
                            w as int,
                        )]);
                        assert(rgb@[rgb_slot(y0, x0, w as int) + 1] == before[rgb_slot(
                            y0,
                            x0,
                            w as int,
                        ) + 1]);
                        assert(rgb@[rgb_slot(y0, x0, w as int) + 2] == before[rgb_slot(
                            y0,
                            x0,
                            w as int,
                        ) + 2]);
                    }
                }
            }
            x = x + 1;
        }
        proof {
            assert(rgb_slot(y + 1, 0, w as int) == rgb_slot(y as int, w as int, w as int))
                by (nonlinear_arith);
        }
        y = y + 1;
    }
    proof {
        assert(rgb_slot(h as int, 0, w as int) == w * h * 3) by (nonlinear_arith);
        lemma_rgb_is_frame_rgb(rgb@, data@, w as int, h as int, s as int);
    }
    Some(rgb)
}

/// The size of the thumbnail of a `width` by `height` image: the largest
/// size of the same shape within 320 by 180, rounded down to whole pixels.
/// `None` for an image without pixels, and for one so long and thin that
/// nothing is left of its shorter side.
pub open spec fn thumbnail_size(width: u32, height: u32) -> Option<(u32, u32)> {
    if width == 0 || height == 0 {
        None
    } else if width * 180 > height * 320 {
        if 320 * height / (width as int) == 0 {
            None
        } else {
            Some((320u32, (320 * height / (width as int)) as u32))
        }
    } else {
        if 180 * width / (height as int) == 0 {
            None
        } else {
            Some(((180 * width / (height as int)) as u32, 180u32))
        }
    }
}

/// A thumbnail keeps within 320 by 180 and touches one of the two bounds.
pub proof fn lemma_thumbnail_size_fits(width: u32, height: u32)
    ensures
        thumbnail_size(width, height) matches Some((w, h)) ==> {
            &&& 0 < w <= 320
            &&& 0 < h <= 180
            &&& w == 320 || h == 180
        },
{
    if width > 0 && height > 0 {
        if width * 180 > height * 320 {
            assert(320 * height / (width as int) <= 180) by (nonlinear_arith)
                requires
                    width * 180 > height * 320,
                    width > 0,
                    height > 0,
            ;
            assert(320 * height / (width as int) >= 0) by (nonlinear_arith)
                requires
                    width > 0,
                    height > 0,
            ;
        } else {
            assert(180 * width / (height as int) <= 320) by (nonlinear_arith)
                requires
                    width * 180 <= height * 320,
                    width > 0,
                    height > 0,
            ;
            assert(180 * width / (height as int) >= 0) by (nonlinear_arith)
                requires
                    width > 0,
                    height > 0,
            ;
        }
    }
}

/// The size of the thumbnail of a `width` by `height` image.
pub fn thumbnail_dimensions(width: u32, height: u32) -> (size: Option<(u32, u32)>)
    ensures
        size == thumbnail_size(width, height),
{
    if width == 0 || height == 0 {
        return None;
    }
    proof {
        lemma_thumbnail_size_fits(width, height);
    }
    let w: u64 = width as u64;
    let h: u64 = height as u64;
    if w * 180 > h * 320 {
        let short: u64 = 320 * h / w;
        if short == 0 {
            None
        } else {
            Some((THUMBNAIL_WIDTH, short as u32))
        }
    } else {
        let short: u64 = 180 * w / h;
        if short == 0 {
            None
        } else {
            Some((short as u32, THUMBNAIL_HEIGHT))
        }
    }
}

/// The pixels of an RGB image scaled to another size with the triangle
/// filter of the image crate.
pub uninterp spec fn resized_rgb(
    rgb: Seq<u8>,
    width: u32,
    height: u32,
    new_width: u32,
    new_height: u32,
) -> Seq<u8>;

/// The bytes of the JPEG file that the image crate writes for an RGB image.
pub uninterp spec fn jpeg_bytes(rgb: Seq<u8>, width: u32, height: u32, quality: u8) -> Seq<u8>;

/// The sizes that a JPEG file can say: each side from 1 to 65535.
pub open spec fn jpeg_takes(width: u32, height: u32) -> bool {
    0 < width <= 0xffff && 0 < height <= 0xffff
}

/// `imageops::resize` of the image crate with its triangle filter, on RGB
/// pixels handed over and taken back as bytes. The result has three bytes
/// for each pixel of the new size. The crate panics where a buffer that it
/// allocates on the way has a length that does not fit in a `usize`; such
/// sizes are left out, and so are images and sizes without pixels. The crate
/// places its samples in single precision, which from 2^24 rows or columns
/// on cannot tell neighbours apart, so that a weight may come out as zero
/// and the crate panic; new sizes beyond those of a thumbnail are left out
/// for this reason.
#[verifier::external_body]
fn resize_rgb(
    rgb: Vec<u8>,
    width: u32,
    height: u32,
    new_width: u32,
    new_height: u32,
) -> (out: Vec<u8>)
    requires
        width > 0,
        height > 0,
        0 < new_width <= 320,
        0 < new_height <= 180,
        width * height * 3 <= rgb@.len(),
        4 * width * new_height <= usize::MAX,
        4 * new_width * new_height <= usize::MAX,
    ensures
        out@ == resized_rgb(rgb@, width, height, new_width, new_height),
        out@.len() == new_width * new_height * 3,
{
    let image: image::RgbImage = image::ImageBuffer::from_raw(width, height, rgb).unwrap();
    let filter = image::imageops::FilterType::Triangle;
    image::imageops::resize(&image, new_width, new_height, filter).into_raw()
}

/// `JpegEncoder::encode` of the image crate on RGB pixels, with an encoder
/// of the given quality that writes into memory. The crate refuses a width
/// or a height of zero or above 65535 and encodes every other image; it
/// panics where the pixels are not three bytes for each pixel of the size,
/// so such pixels are left out.
#[verifier::external_body]
fn encode_jpeg(rgb: &Vec<u8>, width: u32, height: u32, quality: u8) -> (jpeg: Option<Vec<u8>>)
    requires
        rgb@.len() == width * height * 3,
    ensures
        jpeg is Some <==> jpeg_takes(width, height),
        jpeg matches Some(bytes) ==> bytes@ == jpeg_bytes(rgb@, width, height, quality),
{
    let mut out: Vec<u8> = Vec::new();
    let color = image::ExtendedColorType::Rgb8;
    let done = image::codecs::jpeg::JpegEncoder::new_with_quality(&mut out, quality).encode(
        rgb,
        width,
        height,
        color,
    );
    match done {
        Ok(()) => Some(out),
        Err(_) => None,
    }
}

/// Whether the image crate can scale a `width` by `height` image to a
/// thumbnail on this machine: the buffers on the way have lengths that a
/// `usize` can say.
pub open spec fn scalable(width: u32, new_height: u32) -> bool {
    4 * width * new_height <= usize::MAX
}

/// The thumbnail of an RGB image: the base64 text of the JPEG of the image
/// scaled to its thumbnail size. `None` where the pixels are too few for the
/// size, where the image has no thumbnail size, and where the image is too
/// wide to be scaled on this machine.
pub open spec fn thumbnail_of(rgb: Seq<u8>, width: u32, height: u32) -> Option<Seq<char>> {
    if width * height * 3 > rgb.len() {
        None
    } else {
        match thumbnail_size(width, height) {
            None => None,
            Some((w, h)) => {
                let jpeg = jpeg_bytes(resized_rgb(rgb, width, height, w, h), w, h, 75);
                if scalable(width, h) {
                    Some(base64_text(jpeg))
                } else {
                    None
                }
            },
        }
    }
}

/// Makes the thumbnail of an RGB image: scaled to fit 320 by 180, written
/// as a JPEG of quality 75, and that as base64 text.
pub fn create_thumbnail_from_rgb(
    rgb_data: &[u8],
    width: u32,
    height: u32,
) -> (thumbnail: Option<String>)
    ensures
        match thumbnail {
            Some(text) => thumbnail_of(rgb_data@, width, height) == Some(text@),
            None => thumbnail_of(rgb_data@, width, height) is None,
        },
{
    let available: u64 = rgb_data.len() as u64;
    let needed: u64 = match (width as u64).checked_mul(height as u64) {
        Some(pixels) => match pixels.checked_mul(3) {
            Some(bytes) => bytes,
            None => {
                assert(width * height * 3 == pixels * 3) by (nonlinear_arith)
                    requires
                        pixels == width * height,
                ;
                return None;
            },
        },
        None => {
            assert(width * height <= 0xffff_ffff * 0xffff_ffff) by (nonlinear_arith)
                requires
                    width <= 0xffff_ffff,
                    height <= 0xffff_ffff,
            ;
            return None;
        },
    };
    if needed > available {
        return None;
    }
    let (new_width, new_height) = match thumbnail_dimensions(width, height) {
        Some(size) => size,
        None => {
            return None;
        },
    };
    proof {
        lemma_thumbnail_size_fits(width, height);
    }
    assert(4 * width * new_height <= 4 * 0xffff_ffff * 180) by (nonlinear_arith)
        requires
            width <= 0xffff_ffff,
            new_height <= 180,
    ;
    let room: u64 = 4 * (width as u64) * (new_height as u64);
    if room > usize::MAX as u64 {
        return None;
    }
    assert(4 * new_width * new_height <= 4 * 320 * 180) by (nonlinear_arith)
        requires
            new_width <= 320,
            new_height <= 180,
    ;
    let pixels: Vec<u8> = vstd::slice::slice_to_vec(rgb_data);
    let small = resize_rgb(pixels, width, height, new_width, new_height);
    match encode_jpeg(&small, new_width, new_height, THUMBNAIL_QUALITY) {
        Some(jpeg) => Some(encode(jpeg.as_slice())),
        None => None,
    }
}

/// The thumbnail of a captured frame: that of its RGB pixels. `None` for a
/// frame that is not whole, and where its pixels have no thumbnail.
pub open spec fn frame_thumbnail(data: Seq<u8>, width: i32, height: i32, stride: u32) -> Option<
    Seq<char>,
> {
    if frame_is_whole(data, width as int, height as int, stride as int) {
        thumbnail_of(
            frame_rgb(data, width as int, height as int, stride as int),
            width as u32,
            height as u32,
        )
    } else {
        None
    }
}

/// Makes the thumbnail of a captured frame.
pub fn thumbnail_from_frame(data: &[u8], width: i32, height: i32, stride: u32) -> (thumbnail:
    Option<String>)
    ensures
        match thumbnail {
            Some(text) => frame_thumbnail(data@, width, height, stride) == Some(text@),
            None => frame_thumbnail(data@, width, height, stride) is None,
        },
{
    match frame_to_rgb(data, width, height, stride) {
        Some(rgb) => create_thumbnail_from_rgb(rgb.as_slice(), width as u32, height as u32),
        None => None,
    }
}

} // verus!
