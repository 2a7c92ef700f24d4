//! The screenshot pipeline: its stages, the capture buffer, clamping and
//! cropping of the selected region, and the encodings handed on.

use vstd::prelude::*;
use vstd::slice::slice_subrange;
use vstd::string::*;
use crate::codec::{base64_encode, base64_len, base64_standard, image_error_text, jpeg_encode,
    jpeg_encoding, png_encode, png_encoding};
use crate::text::has_prefix;

verus! {

/// Milliseconds to wait after hiding the main window, so that it is not
/// captured itself.
pub const CAPTURE_SETTLE_MS: u64 = 50;

/// The quality at which the preview is compressed.
pub const PREVIEW_QUALITY: u8 = 85;

/// A captured screen: four bytes a pixel, red, green, blue and alpha, row
/// after row.
pub struct ScreenshotData {
    pub rgba: Vec<u8>,
    pub width: u32,
    pub height: u32,
}

impl ScreenshotData {
    /// The buffer holds exactly four bytes for each pixel.
    pub open spec fn wf(&self) -> bool {
        self.rgba@.len() == self.width as int * self.height as int * 4
    }

    /// Decides whether the buffer holds four bytes for each pixel.
    pub fn is_well_formed(&self) -> (r: bool)
        ensures
            r == self.wf(),
    {
        assert(self.width as int * self.height as int <= 0xffff_ffff * 0xffff_ffff)
            by (nonlinear_arith)
            requires
                0 <= self.width <= 0xffff_ffff,
                0 <= self.height <= 0xffff_ffff,
        ;
        assert(0 <= self.width as int * self.height as int) by (nonlinear_arith);
        self.rgba.len() as u128 == (self.width as u128) * (self.height as u128) * 4
    }

    /// Makes a capture buffer, if the bytes are as many as the dimensions
    /// ask for.
    pub fn new(rgba: Vec<u8>, width: u32, height: u32) -> (r: Option<ScreenshotData>)
        ensures
            match r {
                Some(data) => data.wf() && data.rgba == rgba && data.width == width && data.height
                    == height,
                None => rgba@.len() != width as int * height as int * 4,
            },
    {
        assert(width as int * height as int <= 0xffff_ffff * 0xffff_ffff) by (nonlinear_arith)
            requires
                0 <= width <= 0xffff_ffff,
                0 <= height <= 0xffff_ffff,
        ;
        assert(0 <= width as int * height as int) by (nonlinear_arith);
        let want: u128 = (width as u128) * (height as u128) * 4;
        if rgba.len() as u128 == want {
            Some(ScreenshotData { rgba, width, height })
        } else {
            None
        }
    }
}

/// `i` is the first primary display, among displays of which each says
/// whether it is the primary one.
pub open spec fn first_primary(primary: Seq<bool>, i: int) -> bool {
    0 <= i < primary.len() && primary[i] && forall|j: int| 0 <= j < i ==> !primary[j]
}

/// No display is primary.
pub open spec fn none_primary(primary: Seq<bool>) -> bool {
    forall|j: int| 0 <= j < primary.len() ==> !primary[j]
}

/// Chooses the display to capture: the first primary display, or the first
/// display where none is primary, or none where there is no display.
pub fn choose_display(primary: &Vec<bool>) -> (r: Option<usize>)
    ensures
        match r {
            Some(i) => first_primary(primary@, i as int) || (i == 0 && primary@.len() > 0
                && none_primary(primary@)),
            None => primary@.len() == 0,
        },
{
    let mut i: usize = 0;
    while i < primary.len()
        invariant
            i <= primary.len(),
            forall|j: int| 0 <= j < i ==> !primary@[j],
        decreases primary.len() - i,
    {
        if primary[i] {
            return Some(i);
        }
        i = i + 1;
    }
    if primary.len() > 0 {
        Some(0)
    } else {
        None
    }
}

/// A rectangle of pixels.
#[derive(Debug, Clone, Copy, PartialEq, Eq, Structural)]
pub struct Region {
    pub x: u32,
    pub y: u32,
    pub w: u32,
    pub h: u32,
}

/// The smaller of two numbers.
pub open spec fn smaller(a: int, b: int) -> int {
    if a <= b {
        a
    } else {
        b
    }
}

/// The start of a range clamped to an axis of the given length: no further
/// than the last pixel.
pub open spec fn clamped_start(start: int, length: int) -> int {
    smaller(start, if length >= 1 {
        length - 1
    } else {
        0
    })
}

/// The extent of a range clamped to an axis: no further than the end.
pub open spec fn clamped_extent(start: int, extent: int, length: int) -> int {
    smaller(extent, length - clamped_start(start, length))
}

/// The requested rectangle clamped to an image of the given size.
pub open spec fn clamped_region(request: Region, width: u32, height: u32) -> Region {
    Region {
        x: clamped_start(request.x as int, width as int) as u32,
        y: clamped_start(request.y as int, height as int) as u32,
        w: clamped_extent(request.x as int, request.w as int, width as int) as u32,
        h: clamped_extent(request.y as int, request.h as int, height as int) as u32,
    }
}

/// The rectangle lies inside an image of the given size.
pub open spec fn region_inside(r: Region, width: u32, height: u32) -> bool {
    r.x + r.w <= width && r.y + r.h <= height
}

/// Clamps a requested rectangle to the image: whatever is asked for, the
/// rectangle that comes back lies inside the image.
pub fn clamp_region(request: Region, width: u32, height: u32) -> (r: Region)
    ensures
        r == clamped_region(request, width, height),
        region_inside(r, width, height),
{
    let last_x: u32 = if width >= 1 {
        width - 1
    } else {
        0
    };
    let last_y: u32 = if height >= 1 {
        height - 1
    } else {
        0
    };
    let x: u32 = if request.x <= last_x {
        request.x
    } else {
        last_x
    };
    let y: u32 = if request.y <= last_y {
        request.y
    } else {
        last_y
    };
    let w: u32 = if request.w <= width - x {
        request.w
    } else {
        width - x
    };
    let h: u32 = if request.h <= height - y {
        request.h
    } else {
        height - y
    };
    Region { x, y, w, h }
}

/// Where in the buffer the row `row` of a rectangle begins.
pub open spec fn row_start(width: int, x: int, row: int) -> int {
    row * (width * 4) + x * 4
}

/// The bytes of the first `rows` rows of a rectangle that begins at column
/// `x` and row `y` and is `w` pixels wide, in an image `width` pixels wide.
pub open spec fn cropped_rows(rgba: Seq<u8>, width: int, x: int, y: int, w: int, rows: int) -> Seq<
    u8,
>
    decreases rows,
{
    if rows <= 0 {
        Seq::empty()
    } else {
        cropped_rows(rgba, width, x, y, w, rows - 1) + rgba.subrange(
            row_start(width, x, y + rows - 1),
            row_start(width, x, y + rows - 1) + w * 4,
        )
    }
}

/// The bytes of a rectangle of an image.
pub open spec fn cropped(data: ScreenshotData, r: Region) -> Seq<u8> {
    cropped_rows(data.rgba@, data.width as int, r.x as int, r.y as int, r.w as int, r.h as int)
}

proof fn row_in_bounds(width: int, height: int, x: int, w: int, row: int)
    requires
        0 <= x,
        0 <= w,
        x + w <= width,
        0 <= row < height,
    ensures
        0 <= row_start(width, x, row),
        row_start(width, x, row) + w * 4 <= width * height * 4,
        row_start(width, x, row) + w * 4 <= (row + 1) * (width * 4),
{
    assert(row * (width * 4) >= 0) by (nonlinear_arith)
        requires
            row >= 0,
            width >= 0,
    ;
    assert((row + 1) * (width * 4) <= height * (width * 4)) by (nonlinear_arith)
        requires
            row + 1 <= height,
            width >= 0,
    ;
    assert(height * (width * 4) == width * height * 4) by (nonlinear_arith);
    assert((row + 1) * (width * 4) == row * (width * 4) + width * 4) by (nonlinear_arith);
}

/// Copies a rectangle out of a capture buffer, row by row.
///
/// The result holds four bytes for each pixel of the rectangle.
pub fn crop(data: &ScreenshotData, r: Region) -> (out: Vec<u8>)
    requires
        data.wf(),
        region_inside(r, data.width, data.height),
    ensures
        out@ == cropped(*data, r),
        out@.len() == r.w as int * r.h as int * 4,
{
    let mut out: Vec<u8> = Vec::new();
    if r.h == 0 {
        proof {
            crop_length(data.rgba@, data.width as int, data.height as int, r, 0);
        }
        return out;
    }
    let ghost width = data.width as int;
    let ghost height = data.height as int;
    let total: usize = data.rgba.len();
    proof {
        assert(width * 4 <= width * height * 4) by (nonlinear_arith)
            requires
                width >= 0,
                height >= 1,
        ;
    }
    let stride: usize = data.width as usize * 4;
    let x4: usize = r.x as usize * 4;
    let w4: usize = r.w as usize * 4;
    let mut row: u32 = 0;
    while row < r.h
        invariant
            row <= r.h,
            data.wf(),
            region_inside(r, data.width, data.height),
            width == data.width as int,
            height == data.height as int,
            stride == width * 4,
            x4 == r.x * 4,
            w4 == r.w * 4,
            total == data.rgba@.len(),
            out@ == cropped_rows(data.rgba@, width, r.x as int, r.y as int, r.w as int, row as int),
        decreases r.h - row,
    {
        proof {
            row_in_bounds(width, height, r.x as int, r.w as int, r.y + row);
            assert((r.y + row) * (width * 4) >= 0) by (nonlinear_arith)
                requires
                    r.y + row >= 0,
                    width >= 0,
            ;
            assert((r.y + row) * stride == (r.y + row) * (width * 4)) by (nonlinear_arith)
                requires
                    stride == width * 4,
            ;
            assert(row_start(width, r.x as int, r.y + row) == (r.y + row) * stride + x4);
        }
        let start: usize = (r.y as usize + row as usize) * stride + x4;
        let end: usize = start + w4;
        let ghost before = out@;
        let piece = slice_subrange(data.rgba.as_slice(), start, end);
        out.extend_from_slice(piece);
        proof {
            assert(out@ =~= before + data.rgba@.subrange(start as int, end as int));
        }
        row = row + 1;
    }
    proof {
        crop_length(data.rgba@, width, height, r, r.h as int);
    }
    out
}

proof fn crop_length(rgba: Seq<u8>, width: int, height: int, r: Region, rows: int)
    requires
        rgba.len() == width * height * 4,
        0 <= rows <= r.h,
        r.x + r.w <= width,
        r.y + r.h <= height,
    ensures
        cropped_rows(rgba, width, r.x as int, r.y as int, r.w as int, rows).len() == r.w * rows
            * 4,
    decreases rows,
{
    if rows > 0 {
        crop_length(rgba, width, height, r, rows - 1);
        row_in_bounds(width, height, r.x as int, r.w as int, r.y + rows - 1);
        assert(r.w * (rows - 1) * 4 + r.w * 4 == r.w * rows * 4) by (nonlinear_arith);
    } else {
        assert(r.w * rows * 4 == 0) by (nonlinear_arith)
            requires
                rows == 0,
        ;
    }
}

/// Whatever rectangle is asked for of a capture, the clamped rectangle
/// lies inside the capture, and the bytes cut out for it are four for each
/// of its pixels.
pub proof fn clamped_crop_is_exact(data: ScreenshotData, request: Region)
    requires
        data.wf(),
    ensures
        ({
            let r = clamped_region(request, data.width, data.height);
            &&& 0 <= r.x && r.x + r.w <= data.width
            &&& 0 <= r.y && r.y + r.h <= data.height
            &&& cropped(data, r).len() == r.w * r.h * 4
        }),
{
    let r = clamped_region(request, data.width, data.height);
    crop_length(data.rgba@, data.width as int, data.height as int, r, r.h as int);
}

/// The colour bytes of an RGBA buffer: of every four bytes the first three.
pub open spec fn without_alpha(rgba: Seq<u8>) -> Seq<u8> {
    Seq::new((rgba.len() / 4 * 3) as nat, |i: int| rgba[i / 3 * 4 + i % 3])
}

/// Drops the alpha byte of every pixel.
pub fn drop_alpha(rgba: &Vec<u8>) -> (rgb: Vec<u8>)
    ensures
        rgb@ == without_alpha(rgba@),
{
    let mut rgb: Vec<u8> = Vec::new();
    let pixels: usize = rgba.len() / 4;
    let mut p: usize = 0;
    while p < pixels
        invariant
            p <= pixels,
            pixels == rgba@.len() / 4,
            pixels * 4 <= rgba@.len() <= usize::MAX,
            rgb@.len() == p * 3,
            forall|i: int| 0 <= i < p * 3 ==> #[trigger] rgb@[i] == rgba@[i / 3 * 4 + i % 3],
        decreases pixels - p,
    {
        rgb.push(rgba[p * 4]);
        rgb.push(rgba[p * 4 + 1]);
        rgb.push(rgba[p * 4 + 2]);
        p = p + 1;
    }
    proof {
        assert(rgb@ =~= without_alpha(rgba@));
    }
    rgb
}

/// The stage of the screenshot pipeline.
#[derive(Debug, Clone, Copy, PartialEq, Eq, Structural)]
pub enum Stage {
    /// Nothing is going on.
    Idle,
    /// The screen is being captured.
    Capturing,
    /// The capture is stored and the user is choosing a region.
    AwaitingSelection,
    /// The chosen region is being recognized.
    Recognizing,
}

/// What the presentation layer is told when a run ends.
#[derive(Debug, Clone)]
pub enum OcrEvent {
    /// The recognized text.
    Recognized(String),
    /// The message of the failure.
    Failed(String),
}

/// The pipeline: its stage and, from capture to the end of the run, the
/// captured screen.
pub struct CapturePipeline {
    pub stage: Stage,
    pub buffer: Option<ScreenshotData>,
}

/// The message for a request that needs a capture when none is stored.
pub open spec fn no_capture_message() -> Seq<char> {
    "No screenshot data"@
}

/// The beginning of the preview's data URL.
pub open spec fn preview_prefix() -> Seq<char> {
    "data:image/jpeg;base64,"@
}

/// The data URL of a JPEG file.
pub open spec fn data_url_of(jpeg: Seq<u8>) -> Seq<char> {
    preview_prefix() + base64_standard(jpeg)
}

/// Writes the data URL around a JPEG file that is base64 text already.
pub fn data_url_around(encoded: &str) -> (url: String)
    ensures
        url@ == preview_prefix() + encoded@,
{
    let mut url = "data:image/jpeg;base64,".to_owned();
    url.append(encoded);
    url
}

/// Writes a JPEG file as a data URL. The file must be short enough for its
/// base64 text to have a length.
pub fn data_url(jpeg: &Vec<u8>) -> (url: String)
    requires
        base64_len(jpeg@.len() as int) <= usize::MAX,
    ensures
        url@ == data_url_of(jpeg@),
{
    let encoded = base64_encode(jpeg.as_slice());
    data_url_around(encoded.as_str())
}

/// Encodes the preview of a capture: the colours as JPEG at quality 85,
/// written as a data URL.
///
/// Fails with a message that begins "JPEG encode error: " where the
/// encoder refuses the image, or where its output is too long to be
/// written as base64.
pub fn encode_preview(data: &ScreenshotData) -> (r: Result<String, String>)
    requires
        data.wf(),
    ensures
        match jpeg_encoding(without_alpha(data.rgba@), data.width, data.height, 85) {
            Some(jpeg) => if base64_len(jpeg.len() as int) <= usize::MAX {
                r is Ok && r->Ok_0@ == data_url_of(jpeg)
            } else {
                r is Err && has_prefix(r->Err_0@, "JPEG encode error: "@)
            },
            None => r is Err && has_prefix(r->Err_0@, "JPEG encode error: "@),
        },
{
    let rgb = drop_alpha(&data.rgba);
    proof {
        let n = data.width as int * data.height as int;
        assert(n * 4 / 4 * 3 == n * 3) by (nonlinear_arith);
        assert(data.width as int * data.height as int * 3 == n * 3);
    }
    match jpeg_encode(rgb.as_slice(), data.width, data.height, PREVIEW_QUALITY) {
        Ok(jpeg) => {
            if (jpeg.len() as u128 + 2) / 3 * 4 <= usize::MAX as u128 {
                Ok(data_url(&jpeg))
            } else {
                let mut message = "JPEG encode error: ".to_owned();
                message.append("the preview is too large");
                proof {
                    assert(message@.subrange(0, "JPEG encode error: "@.len() as int)
                        =~= "JPEG encode error: "@);
                }
                Err(message)
            }
        },
        Err(e) => {
            let detail = image_error_text(&e);
            let mut message = "JPEG encode error: ".to_owned();
            message.append(detail.as_str());
            proof {
                assert(message@.subrange(0, "JPEG encode error: "@.len() as int)
                    =~= "JPEG encode error: "@);
            }
            Err(message)
        },
    }
}

/// Encodes a cropped region losslessly for recognition.
///
/// Fails with a message that begins "PNG encode error: " where the encoder
/// refuses the image.
pub fn encode_region(rgba: &Vec<u8>, w: u32, h: u32) -> (r: Result<Vec<u8>, String>)
    requires
        rgba@.len() == w as int * h as int * 4,
    ensures
        match png_encoding(rgba@, w, h) {
            Some(png) => r is Ok && r->Ok_0@ == png,
            None => r is Err && has_prefix(r->Err_0@, "PNG encode error: "@),
        },
{
    match png_encode(rgba.as_slice(), w, h) {
        Ok(png) => Ok(png),
        Err(e) => {
            let detail = image_error_text(&e);
            let mut message = "PNG encode error: ".to_owned();
            message.append(detail.as_str());
            proof {
                assert(message@.subrange(0, "PNG encode error: "@.len() as int)
                    =~= "PNG encode error: "@);
            }
            Err(message)
        },
    }
}

impl CapturePipeline {
    /// A capture is stored exactly while a region is awaited or recognized,
    /// and it is well formed.
    pub open spec fn wf(&self) -> bool {
        match self.stage {
            Stage::Idle => self.buffer is None,
            Stage::Capturing => self.buffer is None,
            Stage::AwaitingSelection => self.buffer is Some && self.buffer->0.wf(),
            Stage::Recognizing => self.buffer is Some && self.buffer->0.wf(),
        }
    }

    /// Decides whether the pipeline is well formed.
    pub fn is_well_formed(&self) -> (r: bool)
        ensures
            r == self.wf(),
    {
        match self.stage {
            Stage::Idle => self.buffer.is_none(),
            Stage::Capturing => self.buffer.is_none(),
            Stage::AwaitingSelection => match &self.buffer {
                Some(data) => data.is_well_formed(),
                None => false,
            },
            Stage::Recognizing => match &self.buffer {
                Some(data) => data.is_well_formed(),
                None => false,
            },
        }
    }

    /// A pipeline at rest.
    pub fn new() -> (p: CapturePipeline)
        ensures
            p.stage == Stage::Idle,
            p.buffer is None,
            p.wf(),
    {
        CapturePipeline { stage: Stage::Idle, buffer: None }
    }

    /// Whether a run is in progress.
    pub fn in_progress(&self) -> (r: bool)
        ensures
            r == (self.stage != Stage::Idle),
    {
        match self.stage {
            Stage::Idle => false,
            _ => true,
        }
    }

    /// A trigger. At rest it starts a run, and the caller is to capture the
    /// screen. While a run is in progress it does nothing at all.
    pub fn trigger(&mut self) -> (started: bool)
        requires
            old(self).wf(),
        ensures
            final(self).wf(),
            started == (old(self).stage == Stage::Idle),
            started ==> final(self).stage == Stage::Capturing && final(self).buffer is None,
            !started ==> *final(self) == *old(self),
    {
        match self.stage {
            Stage::Idle => {
                self.stage = Stage::Capturing;
                true
            },
            _ => false,
        }
    }

    /// The capture ended. A captured screen is stored and the selection
    /// awaited; a failure ends the run and is handed back.
    pub fn capture_finished(&mut self, shot: Result<ScreenshotData, String>) -> (r: Result<
        (),
        String,
    >)
        requires
            old(self).wf(),
            old(self).stage == Stage::Capturing,
            shot is Ok ==> shot->Ok_0.wf(),
        ensures
            final(self).wf(),
            match shot {
                Ok(data) => r is Ok && final(self).stage == Stage::AwaitingSelection
                    && final(self).buffer == Some(data),
                Err(e) => r == Err::<(), String>(e) && final(self).stage == Stage::Idle
                    && final(self).buffer is None,
            },
    {
        match shot {
            Ok(data) => {
                self.buffer = Some(data);
                self.stage = Stage::AwaitingSelection;
                Ok(())
            },
            Err(e) => {
                self.buffer = None;
                self.stage = Stage::Idle;
                Err(e)
            },
        }
    }

    /// The selection overlay could not be opened: the run ends, the capture
    /// is dropped, and the message to surface comes back.
    pub fn overlay_failed(&mut self, detail: &str) -> (message: String)
        ensures
            final(self).wf(),
            final(self).stage == Stage::Idle,
            final(self).buffer is None,
            message@ == "Failed to create selection window: "@ + detail@,
    {
        self.buffer = None;
        self.stage = Stage::Idle;
        let mut message = "Failed to create selection window: ".to_owned();
        message.append(detail);
        message
    }

    /// The preview of the stored capture for the overlay, made on demand.
    /// Without a stored capture it fails with "No screenshot data".
    pub fn preview(&self) -> (r: Result<String, String>)
        requires
            self.wf(),
        ensures
            match self.buffer {
                Some(data) => match jpeg_encoding(
                    without_alpha(data.rgba@),
                    data.width,
                    data.height,
                    85,
                ) {
                    Some(jpeg) => if base64_len(jpeg.len() as int) <= usize::MAX {
                        r is Ok && r->Ok_0@ == data_url_of(jpeg)
                    } else {
                        r is Err && has_prefix(r->Err_0@, "JPEG encode error: "@)
                    },
                    None => r is Err && has_prefix(r->Err_0@, "JPEG encode error: "@),
                },
                None => r is Err && r->Err_0@ == no_capture_message(),
            },
    {
        match &self.buffer {
            Some(data) => encode_preview(data),
            None => Err("No screenshot data".to_owned()),
        }
    }

    /// The user confirmed a rectangle. It is clamped to the capture, cut
    /// out and encoded losslessly for recognition, and the pipeline moves
    /// on to recognizing; the capture stays stored until the run ends.
    ///
    /// Without a stored capture nothing changes and the call fails with
    /// "No screenshot data". A failure of the encoder is an outcome of the
    /// run, to be reported through [`CapturePipeline::finish`].
    pub fn select_region(&mut self, request: Region) -> (r: Result<Vec<u8>, String>)
        requires
            old(self).wf(),
        ensures
            final(self).wf(),
            final(self).buffer == old(self).buffer,
            match old(self).buffer {
                Some(data) => {
                    let region = clamped_region(request, data.width, data.height);
                    &&& final(self).stage == Stage::Recognizing
                    &&& match png_encoding(cropped(data, region), region.w, region.h) {
                        Some(png) => r is Ok && r->Ok_0@ == png,
                        None => r is Err && has_prefix(r->Err_0@, "PNG encode error: "@),
                    }
                },
                None => r is Err && r->Err_0@ == no_capture_message() && final(self).stage == old(
                    self,
                ).stage,
            },
    {
        match &self.buffer {
            Some(data) => {
                let region = clamp_region(request, data.width, data.height);
                let pixels = crop(data, region);
                let r = encode_region(&pixels, region.w, region.h);
                self.stage = Stage::Recognizing;
                r
            },
            None => Err("No screenshot data".to_owned()),
        }
    }

    /// The run ended, with a text or with a failure: the capture is
    /// dropped, the pipeline is at rest again, and the outcome is handed on
    /// as the event for the presentation layer.
    pub fn finish(&mut self, outcome: Result<String, String>) -> (event: OcrEvent)
        ensures
            final(self).wf(),
            final(self).stage == Stage::Idle,
            final(self).buffer is None,
            match outcome {
                Ok(text) => event == OcrEvent::Recognized(text),
                Err(message) => event == OcrEvent::Failed(message),
            },
    {
        self.buffer = None;
        self.stage = Stage::Idle;
        match outcome {
            Ok(text) => OcrEvent::Recognized(text),
            Err(message) => OcrEvent::Failed(message),
        }
    }

    /// The user cancelled: the capture is dropped and the pipeline is at
    /// rest again, whatever it was doing.
    pub fn cancel(&mut self)
        ensures
            final(self).wf(),
            final(self).stage == Stage::Idle,
            final(self).buffer is None,
    {
        self.buffer = None;
        self.stage = Stage::Idle;
    }
}

} // verus!
