//! One snapshot's worth of captured pixels, with bounds-checked access and
//! conversion into a row-major RGB interchange buffer.

use vstd::prelude::*;

use crate::bgr;
use crate::CaptureError;

verus! {

/// Arithmetic facts about a `w` by `h` rectangle of 32-bit pixel records.
pub proof fn lemma_rect_arith(w: int, h: int)
    requires
        0 <= w < 0x1_0000_0000,
        0 <= h < 0x1_0000_0000,
    ensures
        0 <= w * h < 0x1_0000_0000_0000_0000,
        4 * w * h == 4 * (w * h),
        3 * w * h == 3 * (w * h),
        4 * w * h < 0x4_0000_0000_0000_0000,
{
    assert(0 <= w * h < 0x1_0000_0000_0000_0000 && 4 * w * h == 4 * (w * h) && 3 * w * h == 3 * (w
        * h) && 4 * w * h < 0x4_0000_0000_0000_0000) by (nonlinear_arith)
        requires
            0 <= w < 0x1_0000_0000,
            0 <= h < 0x1_0000_0000,
    ;
}

/// Flat row-major indexing stays inside a `w` by `h` rectangle.
pub proof fn lemma_flat_index(w: int, h: int, x: int, y: int)
    requires
        0 <= x < w,
        0 <= y < h,
    ensures
        0 <= y * w + x,
        y * w + x < w * h,
{
    assert(0 <= y * w + x && y * w + x < w * h) by (nonlinear_arith)
        requires
            0 <= x < w,
            0 <= y < h,
    ;
}

/// The pixel that the server's byte buffer stores at record `i`: four bytes
/// per pixel, ordered blue, green, red, padding.
pub open spec fn decoded_pixel(bytes: Seq<u8>, i: int) -> bgr {
    bgr { b: bytes[4 * i], g: bytes[4 * i + 1], r: bytes[4 * i + 2], _pad: bytes[4 * i + 3] }
}

/// `pixels` is exactly the pixel-record reading of `bytes`.
pub open spec fn decodes_to(bytes: Seq<u8>, pixels: Seq<bgr>) -> bool {
    &&& bytes.len() == 4 * pixels.len()
    &&& forall|i: int| 0 <= i < pixels.len() ==> pixels[i] == decoded_pixel(bytes, i)
}

/// One captured snapshot: the requested rectangle's dimensions, the server's
/// handle for the buffer, and the decoded read-only pixel records.
pub struct CapturedImage {
    handle: usize,
    width: u32,
    height: u32,
    pixels: Vec<bgr>,
}

impl CapturedImage {
    /// The server-side handle of the buffer this image was decoded from.
    pub closed spec fn spec_handle(&self) -> usize {
        self.handle
    }

    pub closed spec fn spec_width(&self) -> u32 {
        self.width
    }

    pub closed spec fn spec_height(&self) -> u32 {
        self.height
    }

    /// The decoded pixel records, row-major.
    pub closed spec fn pixel_seq(&self) -> Seq<bgr> {
        self.pixels@
    }

    /// Dimension invariant: exactly `width * height` pixel records, decoded
    /// from a byte buffer whose length fit in memory.
    pub open spec fn wf(&self) -> bool {
        &&& self.pixel_seq().len() == self.spec_width() * self.spec_height()
        &&& 4 * self.spec_width() * self.spec_height() <= usize::MAX
    }

    /// The pixel record at column `x` of row `y`.
    pub open spec fn spec_pixel_at(&self, x: int, y: int) -> bgr {
        self.pixel_seq()[y * self.spec_width() + x]
    }

    /// Decodes a server byte buffer into an image. Succeeds exactly when the
    /// buffer holds one 4-byte record per pixel of a `width` by `height`
    /// rectangle; anything else is rejected whole, never truncated or padded.
    pub fn from_bytes(handle: usize, width: u32, height: u32, bytes: &Vec<u8>) -> (r: Option<
        CapturedImage,
    >)
        ensures
            r is Some <==> bytes@.len() == 4 * width * height,
            r is Some ==> r->0.wf(),
            r is Some ==> r->0.spec_handle() == handle,
            r is Some ==> r->0.spec_width() == width,
            r is Some ==> r->0.spec_height() == height,
            r is Some ==> decodes_to(bytes@, r->0.pixel_seq()),
    {
        proof {
            lemma_rect_arith(width as int, height as int);
        }
        let w128 = width as u128;
        let h128 = height as u128;
        let blen: usize = bytes.len();
        if (blen as u128) != 4u128 * w128 * h128 {
            return None;
        }
        let n: usize = (width as usize) * (height as usize);
        let mut pixels: Vec<bgr> = Vec::new();
        let mut i: usize = 0;
        while i < n
            invariant
                i <= n,
                bytes@.len() == 4 * n,
                4 * n <= usize::MAX,
                pixels@.len() == i,
                forall|j: int| 0 <= j < i ==> pixels@[j] == decoded_pixel(bytes@, j),
            decreases n - i,
        {
            let p = bgr {
                b: bytes[4 * i],
                g: bytes[4 * i + 1],
                r: bytes[4 * i + 2],
                _pad: bytes[4 * i + 3],
            };
            pixels.push(p);
            i = i + 1;
        }
        Some(CapturedImage { handle, width, height, pixels })
    }

    pub fn handle(&self) -> (r: usize)
        ensures
            r == self.spec_handle(),
    {
        self.handle
    }

    /// How many pixel records the snapshot holds; for a well-formed image
    /// this is exactly `width * height`.
    pub fn pixel_count(&self) -> (r: usize)
        ensures
            r == self.pixel_seq().len(),
            self.wf() ==> r == self.spec_width() * self.spec_height(),
    {
        self.pixels.len()
    }

    pub fn width(&self) -> (r: u32)
        ensures
            r == self.spec_width(),
    {
        self.width
    }

    pub fn height(&self) -> (r: u32)
        ensures
            r == self.spec_height(),
    {
        self.height
    }

    /// Bounds-checked pixel read: the record at `y * width + x` when the
    /// coordinates lie inside the rectangle, and a loud error otherwise —
    /// never a silent read of a neighbouring record.
    pub fn pixel_at(&self, x: i32, y: i32) -> (r: Result<bgr, CaptureError>)
        requires
            self.wf(),
        ensures
            (0 <= x < self.spec_width() && 0 <= y < self.spec_height()) ==> r == Ok::<
                bgr,
                CaptureError,
            >(self.spec_pixel_at(x as int, y as int)),
            !(0 <= x < self.spec_width() && 0 <= y < self.spec_height()) ==> r == Err::<
                bgr,
                CaptureError,
            >(CaptureError::OutOfRangeAccess),
    {
        if x >= 0 && y >= 0 && (x as u32) < self.width && (y as u32) < self.height {
            proof {
                lemma_rect_arith(self.spec_width() as int, self.spec_height() as int);
                lemma_flat_index(
                    self.spec_width() as int,
                    self.spec_height() as int,
                    x as int,
                    y as int,
                );
            }
            let idx: usize = (y as usize) * (self.width as usize) + (x as usize);
            Ok(self.pixels[idx])
        } else {
            Err(CaptureError::OutOfRangeAccess)
        }
    }

    /// Converts the whole snapshot into an independent row-major RGB buffer:
    /// every pixel's channels reordered to red, green, blue, the padding byte
    /// dropped, no channel value changed.
    pub fn to_interchange_image(&self) -> (r: InterchangeImage)
        requires
            self.wf(),
        ensures
            is_conversion_of(r, *self),
    {
        proof {
            lemma_rect_arith(self.spec_width() as int, self.spec_height() as int);
        }
        let n: usize = self.pixels.len();
        let mut data: Vec<u8> = Vec::new();
        let mut i: usize = 0;
        while i < n
            invariant
                i <= n,
                n == self.pixel_seq().len(),
                data@.len() == 3 * i,
                forall|j: int| 0 <= j < i ==> rgb_record_at(data@, self.pixel_seq(), j),
            decreases n - i,
        {
            let p = self.pixels[i];
            let ghost data0 = data@;
            data.push(p.r);
            data.push(p.g);
            data.push(p.b);
            proof {
                assert forall|j: int| 0 <= j < i + 1 implies rgb_record_at(
                    data@,
                    self.pixel_seq(),
                    j,
                ) by {
                    if j < i {
                        assert(rgb_record_at(data0, self.pixel_seq(), j));
                        assert(data@[3 * j] == data0[3 * j]);
                        assert(data@[3 * j + 1] == data0[3 * j + 1]);
                        assert(data@[3 * j + 2] == data0[3 * j + 2]);
                    } else {
                        assert(data@[3 * j] == p.r);
                        assert(data@[3 * j + 1] == p.g);
                        assert(data@[3 * j + 2] == p.b);
                    }
                }
            }
            i = i + 1;
        }
        InterchangeImage { width: self.width, height: self.height, data }
    }
}

/// An independent row-major RGB export buffer: three bytes per pixel, ordered
/// red, green, blue, holding no reference into any server buffer.
pub struct InterchangeImage {
    pub(crate) width: u32,
    pub(crate) height: u32,
    pub(crate) data: Vec<u8>,
}

impl InterchangeImage {
    pub closed spec fn spec_width(&self) -> u32 {
        self.width
    }

    pub closed spec fn spec_height(&self) -> u32 {
        self.height
    }

    /// The raw RGB bytes, row-major.
    pub closed spec fn data_seq(&self) -> Seq<u8> {
        self.data@
    }

    pub open spec fn wf(&self) -> bool {
        self.data_seq().len() == 3 * self.spec_width() * self.spec_height()
    }

    /// The (red, green, blue) channel triple stored for column `x` of row `y`.
    pub open spec fn spec_channels_at(&self, x: int, y: int) -> (u8, u8, u8) {
        (
            self.data_seq()[3 * (y * self.spec_width() + x)],
            self.data_seq()[3 * (y * self.spec_width() + x) + 1],
            self.data_seq()[3 * (y * self.spec_width() + x) + 2],
        )
    }

    pub fn width(&self) -> (r: u32)
        ensures
            r == self.spec_width(),
    {
        self.width
    }

    pub fn height(&self) -> (r: u32)
        ensures
            r == self.spec_height(),
    {
        self.height
    }

    /// Bounds-checked read of the (red, green, blue) triple at `(x, y)`.
    pub fn channels_at(&self, x: i32, y: i32) -> (r: Result<(u8, u8, u8), CaptureError>)
        requires
            self.wf(),
        ensures
            (0 <= x < self.spec_width() && 0 <= y < self.spec_height()) ==> r == Ok::<
                (u8, u8, u8),
                CaptureError,
            >(self.spec_channels_at(x as int, y as int)),
            !(0 <= x < self.spec_width() && 0 <= y < self.spec_height()) ==> r == Err::<
                (u8, u8, u8),
                CaptureError,
            >(CaptureError::OutOfRangeAccess),
    {
        if x >= 0 && y >= 0 && (x as u32) < self.width && (y as u32) < self.height {
            // binds the buffer length as a `usize`, which bounds `3 * idx + 2`
            let _data_len: usize = self.data.len();
            proof {
                lemma_rect_arith(self.spec_width() as int, self.spec_height() as int);
                lemma_flat_index(
                    self.spec_width() as int,
                    self.spec_height() as int,
                    x as int,
                    y as int,
                );
            }
            let idx: usize = (y as usize) * (self.width as usize) + (x as usize);
            Ok((self.data[3 * idx], self.data[3 * idx + 1], self.data[3 * idx + 2]))
        } else {
            Err(CaptureError::OutOfRangeAccess)
        }
    }

    /// Hands out the raw RGB bytes, consuming the buffer.
    pub fn into_bytes(self) -> (r: Vec<u8>)
        ensures
            r@ == self.data_seq(),
    {
        self.data
    }
}

/// Record `j` of `data` holds pixel `j`'s channels reordered to red, green,
/// blue.
pub open spec fn rgb_record_at(data: Seq<u8>, pixels: Seq<bgr>, j: int) -> bool {
    &&& data[3 * j] == pixels[j].r
    &&& data[3 * j + 1] == pixels[j].g
    &&& data[3 * j + 2] == pixels[j].b
}

/// `out` is the RGB interchange reading of the snapshot `img`: same rectangle,
/// three bytes per pixel in red, green, blue order, channel values unchanged.
pub open spec fn is_conversion_of(out: InterchangeImage, img: CapturedImage) -> bool {
    &&& out.spec_width() == img.spec_width()
    &&& out.spec_height() == img.spec_height()
    &&& out.data_seq().len() == 3 * img.spec_width() * img.spec_height()
    &&& forall|i: int|
        0 <= i < img.spec_width() * img.spec_height() ==> rgb_record_at(
            out.data_seq(),
            img.pixel_seq(),
            i,
        )
}

/// Converting a snapshot to the RGB interchange form and reading the channels
/// at any in-bounds coordinate gives back exactly the red, green and blue
/// values of the original BGR record there: reordering changes no channel.
pub proof fn lemma_conversion_round_trip(img: CapturedImage, out: InterchangeImage, x: int, y: int)
    requires
        img.wf(),
        is_conversion_of(out, img),
        0 <= x < img.spec_width(),
        0 <= y < img.spec_height(),
    ensures
        out.wf(),
        out.spec_channels_at(x, y).0 == img.spec_pixel_at(x, y).r,
        out.spec_channels_at(x, y).1 == img.spec_pixel_at(x, y).g,
        out.spec_channels_at(x, y).2 == img.spec_pixel_at(x, y).b,
{
    let i = y * img.spec_width() + x;
    lemma_flat_index(img.spec_width() as int, img.spec_height() as int, x, y);
    assert(rgb_record_at(out.data_seq(), img.pixel_seq(), i));
}

/// A conversion of a well-formed snapshot is itself well-formed: it holds
/// exactly `3 * width * height` bytes — one record of three channels per
/// captured pixel, so the pixel counts of the two forms agree.
pub proof fn lemma_conversion_well_formed(img: CapturedImage, out: InterchangeImage)
    requires
        img.wf(),
        is_conversion_of(out, img),
    ensures
        out.wf(),
        out.data_seq().len() == 3 * img.pixel_seq().len(),
{
    lemma_rect_arith(img.spec_width() as int, img.spec_height() as int);
}

} // verus!
