//! The recognition engine: a pluggable backend turns an image into text,
//! a confidence score and bounding boxes; the engine selects a backend,
//! reports availability, and stamps the processing time.
//!
//! Confidence values are per-mille (0 ..= 1000 stands for 0.0 ..= 1.0);
//! processing times are in milliseconds.

use vstd::prelude::*;

use crate::ImageInfo;
use crate::numfmt::{spec_decimal, u64_to_decimal};
use crate::text::{is_blank, spec_blank, spec_lines, split_lines, views_of};

verus! {

/// The outcome of one completed recognition job.
#[derive(Debug, Clone, PartialEq)]
pub struct OcrResult {
    /// Full recognized text, newline-delimited, in reading order.
    pub text: String,
    /// Aggregate confidence, per-mille: 0 ..= 1000.
    pub confidence: u32,
    /// Wall-clock duration of the backend call, in milliseconds.
    pub processing_time: u64,
    /// Detected regions, in detection order.
    pub bounding_boxes: Vec<BoundingBox>,
}

/// One detected text region, with pixel offsets and extents within the
/// source image's coordinate space.
#[derive(Debug, Clone, PartialEq)]
pub struct BoundingBox {
    /// The substring attributed to this region.
    pub text: String,
    /// Region-level confidence; an independent scale from the aggregate
    /// confidence, and may exceed 1000.
    pub confidence: u32,
    pub x: u32,
    pub y: u32,
    pub width: u32,
    pub height: u32,
}

/// Availability of the recognition backends, computed once when the
/// engine is constructed.
#[derive(Debug, Clone, PartialEq, Eq, Structural)]
pub enum EngineStatus {
    /// Both backends are usable.
    Ready,
    /// No backend is usable; every request fails at once.
    NoEngineAvailable,
    /// Only the legacy OCR-library backend is usable.
    TesseractOnly,
    /// Only the model-based backend is usable.
    CandleOnly,
}

/// Why the engine could not produce a result.
#[derive(Debug, Clone, PartialEq)]
pub enum EngineError {
    /// No recognition backend is usable.
    NoBackend,
    /// The selected backend failed; the reason is carried verbatim.
    Backend(String),
}

impl EngineError {
    /// A human-readable reason, carried to the error state.
    pub fn describe(self) -> (r: String)
        ensures
            self is NoBackend ==> r@ == spec_no_backend_text(),
            self matches EngineError::Backend(m) ==> r@ == m@,
    {
        match self {
            EngineError::NoBackend => {
                let s = "no OCR engine available; check the installed backends";
                s.to_owned()
            },
            EngineError::Backend(m) => m,
        }
    }
}

/// The reason reported when no backend is usable.
pub open spec fn spec_no_backend_text() -> Seq<char> {
    "no OCR engine available; check the installed backends"@
}

/// A backend-specific failure, reported as a job failure and never
/// retried automatically.
#[derive(Debug, Clone, PartialEq)]
pub struct BackendError {
    pub message: String,
}

// ---------------------------------------------------------------------
// Wall-clock timing.  The engine, not the caller, stamps the processing
// time, measuring strictly the backend invocation.
// ---------------------------------------------------------------------

/// Declares `std::time::Instant` so a clock reading can be held and
/// passed; the value itself stays opaque.
#[verifier::external_type_specification]
#[verifier::external_body]
pub struct ExInstant(std::time::Instant);

/// Relies on std::time::Instant::now: an opaque reading of the monotonic
/// clock.  Nothing can be promised of the value.
#[verifier::external_body]
fn now_instant() -> std::time::Instant {
    std::time::Instant::now()
}

/// Relies on std::time::Instant::elapsed: the wall-clock time since
/// `start`, converted to whole milliseconds.  The value depends on the
/// clock, so nothing is promised of it.
#[verifier::external_body]
fn elapsed_millis(start: &std::time::Instant) -> u64 {
    u64::try_from(start.elapsed().as_millis()).unwrap_or(u64::MAX)
}

// ---------------------------------------------------------------------
// The simulated model-based backend.
// ---------------------------------------------------------------------

/// The model-based recognition backend.  In demo mode it produces a
/// deterministic simulated reading derived from the image dimensions; the
/// contract below pins that reading down exactly, so a real model can
/// replace the body only together with its own contract.
pub struct CandleOcrModel {
    pub model_path: String,
    pub demo_mode: bool,
}

/// The simulated per-request latency in milliseconds, derived from the
/// image size.
pub open spec fn spec_delay(w: u32, h: u32) -> int {
    (w * h) / 100000 + 50
}

/// The confidence bonus granted to larger images, per-mille.
pub open spec fn spec_size_bonus(w: u32, h: u32) -> int {
    let b = (w * h) / 5000;
    if b > 200 {
        200
    } else {
        b
    }
}

/// Aggregate confidence of the simulated reading, per-mille: a base of
/// 750 plus the size bonus, capped at 980.
pub open spec fn spec_confidence(w: u32, h: u32) -> int {
    let c = 750 + spec_size_bonus(w, h);
    if c > 980 {
        980
    } else {
        c
    }
}

/// Approximate encoded size in kilobytes, as quoted in the simulated
/// document report.
pub open spec fn spec_size_kb(w: u32, h: u32) -> int {
    (w * h) / 1024 * 3
}

/// Which of the four simulated readings an image receives.
pub open spec fn spec_demo_index(w: u32, h: u32) -> int {
    (w + h) % 4
}

/// The simulated document-report reading.
pub open spec fn spec_text_document(w: u32, h: u32) -> Seq<char> {
    "OCR RECOGNITION REPORT\n\nProject: intelligent document processing\nDate: 2024-01-15\n\nStatus:\n  image preprocessing done\n  text recognition done\n  formatting kept\n\nImage info:\n  resolution: "@
        + spec_decimal(w as nat) + " x "@ + spec_decimal(h as nat)
        + "\n  format: RGB\n  size: about "@ + spec_decimal(spec_size_kb(w, h) as nat) + "KB"@
}

/// The simulated product-list reading.
pub open spec fn spec_text_table(w: u32, h: u32) -> Seq<char> {
    "PRODUCT LIST\n\nno  item      qty  price\n1   phone     1    5999\n2   headset   2    299\n3   charger   1    89\n\ntotal: 6686\n\nimage size: "@
        + spec_decimal(w as nat) + " x "@ + spec_decimal(h as nat) + " pixels\nprocessing time: "@
        + spec_decimal((spec_delay(w, h) * 2) as nat) + "ms"@
}

/// The simulated source-code reading.
pub open spec fn spec_text_code(w: u32, h: u32) -> Seq<char> {
    "function processOcr() {\n    let width = "@ + spec_decimal(w as nat)
        + ";\n    let height = "@ + spec_decimal(h as nat)
        + ";\n    return recognize(width, height);\n}\n\nrecognition done"@
}

/// The simulated poem reading; the quoted confidence is per-mille turned
/// into a percentage with one decimal place.
pub open spec fn spec_text_poem(w: u32, h: u32) -> Seq<char> {
    "Spring Dawn\n  after Meng Haoran\n\nIn spring one sleeps, unaware of dawn;\neverywhere one hears crying birds.\nAt night came sounds of wind and rain;\nwho knows how many petals fell.\n\nimage size: "@
        + spec_decimal(w as nat) + " x "@ + spec_decimal(h as nat)
        + "\nengine: Candle AI\nconfidence: "@ + spec_decimal((spec_confidence(w, h) / 10) as nat)
        + "."@ + spec_decimal((spec_confidence(w, h) % 10) as nat) + " percent"@
}

/// The simulated reading for an image: one of four templates, chosen by
/// the image dimensions.
pub open spec fn spec_demo_text(w: u32, h: u32) -> Seq<char> {
    let idx = spec_demo_index(w, h);
    if idx == 0 {
        spec_text_document(w, h)
    } else if idx == 1 {
        spec_text_table(w, h)
    } else if idx == 2 {
        spec_text_code(w, h)
    } else {
        spec_text_poem(w, h)
    }
}

impl CandleOcrModel {
    /// Loads the model.  The demo-mode model is always present.
    pub fn new() -> (r: Result<CandleOcrModel, BackendError>)
        ensures
            r matches Ok(m) && m.demo_mode,
    {
        Ok(CandleOcrModel { model_path: "demo_model".to_owned(), demo_mode: true })
    }

    /// The simulated latency for an image, in milliseconds.
    pub fn simulated_delay(&self, image: &ImageInfo) -> (r: u64)
        ensures
            r == spec_delay(image.width, image.height),
            r <= u64::MAX / 100000 + 50,
    {
        let pc = image.pixel_count();
        proof {
            vstd::arithmetic::div_mod::lemma_div_is_ordered(pc as int, u64::MAX as int, 100000);
        }
        pc / 100000 + 50
    }

    /// Aggregate confidence for an image, per-mille.
    pub fn confidence_for(&self, image: &ImageInfo) -> (r: u32)
        ensures
            r == spec_confidence(image.width, image.height),
            0 < r <= 1000,
    {
        let bonus = image.pixel_count() / 5000;
        let bonus = if bonus > 200 {
            200
        } else {
            bonus
        };
        let c = 750 + bonus;
        let c = if c > 980 {
            980
        } else {
            c
        };
        c as u32
    }

    /// Builds the simulated reading for an image.
    pub fn demo_text(&self, image: &ImageInfo) -> (r: String)
        ensures
            r@ == spec_demo_text(image.width, image.height),
    {
        let w = image.width;
        let h = image.height;
        let idx = ((w as u64) + (h as u64)) % 4;
        if idx == 0 {
            let mut t =
                "OCR RECOGNITION REPORT\n\nProject: intelligent document processing\nDate: 2024-01-15\n\nStatus:\n  image preprocessing done\n  text recognition done\n  formatting kept\n\nImage info:\n  resolution: ".to_owned();
            t.append(u64_to_decimal(w as u64).as_str());
            t.append(" x ");
            t.append(u64_to_decimal(h as u64).as_str());
            t.append("\n  format: RGB\n  size: about ");
            t.append(u64_to_decimal(image.pixel_count() / 1024 * 3).as_str());
            t.append("KB");
            t
        } else if idx == 1 {
            let mut t =
                "PRODUCT LIST\n\nno  item      qty  price\n1   phone     1    5999\n2   headset   2    299\n3   charger   1    89\n\ntotal: 6686\n\nimage size: ".to_owned();
            t.append(u64_to_decimal(w as u64).as_str());
            t.append(" x ");
            t.append(u64_to_decimal(h as u64).as_str());
            t.append(" pixels\nprocessing time: ");
            t.append(u64_to_decimal(self.simulated_delay(image) * 2).as_str());
            t.append("ms");
            t
        } else if idx == 2 {
            let mut t = "function processOcr() {\n    let width = ".to_owned();
            t.append(u64_to_decimal(w as u64).as_str());
            t.append(";\n    let height = ");
            t.append(u64_to_decimal(h as u64).as_str());
            t.append(";\n    return recognize(width, height);\n}\n\nrecognition done");
            t
        } else {
            let conf = self.confidence_for(image);
            let mut t =
                "Spring Dawn\n  after Meng Haoran\n\nIn spring one sleeps, unaware of dawn;\neverywhere one hears crying birds.\nAt night came sounds of wind and rain;\nwho knows how many petals fell.\n\nimage size: ".to_owned();
            t.append(u64_to_decimal(w as u64).as_str());
            t.append(" x ");
            t.append(u64_to_decimal(h as u64).as_str());
            t.append("\nengine: Candle AI\nconfidence: ");
            t.append(u64_to_decimal((conf / 10) as u64).as_str());
            t.append(".");
            t.append(u64_to_decimal((conf % 10) as u64).as_str());
            t.append(" percent");
            t
        }
    }
}

// ---------------------------------------------------------------------
// Simulated region geometry.  A well-behaved backend only emits boxes
// that lie within the source image, so a line's box is emitted only when
// it fits.
// ---------------------------------------------------------------------

/// Horizontal offset of every simulated box.
pub open spec fn spec_box_x(w: u32) -> int {
    w as int / 10
}

/// Width of every simulated box.
pub open spec fn spec_box_w(w: u32) -> int {
    (w * 8) / 10
}

/// Vertical offset of the box for line `i`.
pub open spec fn spec_box_y(i: int, h: u32) -> int {
    h as int / 5 + (i * 3 * h) / 20
}

/// Height of every simulated box.
pub open spec fn spec_box_h(h: u32) -> int {
    (h * 2) / 25
}

/// Region-level confidence of the box for line `i`; grows with the line
/// number and saturates at the largest representable value.
pub open spec fn spec_box_conf(i: int) -> int {
    if 850 + i * 50 > u32::MAX {
        u32::MAX as int
    } else {
        850 + i * 50
    }
}

/// Whether line `i` receives a box: it is not blank, and its box fits
/// vertically within the image.
pub open spec fn spec_keep_line(line: Seq<char>, i: int, h: u32) -> bool {
    !spec_blank(line) && spec_box_y(i, h) + spec_box_h(h) <= h
}

/// The indices of the lines that receive a box, in order.
pub open spec fn spec_rows(ls: Seq<Seq<char>>, h: u32) -> Seq<int>
    decreases ls.len(),
{
    if ls.len() == 0 {
        seq![]
    } else {
        let pre = spec_rows(ls.drop_last(), h);
        if spec_keep_line(ls.last(), ls.len() - 1, h) {
            pre.push(ls.len() - 1)
        } else {
            pre
        }
    }
}

/// The box that line `i` of `ls` receives.
pub open spec fn spec_box_for(ls: Seq<Seq<char>>, i: int, w: u32, h: u32, b: BoundingBox) -> bool {
    &&& b.text@ == ls[i]
    &&& b.confidence == spec_box_conf(i)
    &&& b.x == spec_box_x(w)
    &&& b.y == spec_box_y(i, h)
    &&& b.width == spec_box_w(w)
    &&& b.height == spec_box_h(h)
}

/// The boxes of a reading: one per kept line, in line order.
pub open spec fn spec_boxes_for(ls: Seq<Seq<char>>, w: u32, h: u32, boxes: Seq<BoundingBox>) -> bool {
    let rows = spec_rows(ls, h);
    &&& boxes.len() == rows.len()
    &&& forall|j: int|
        0 <= j < rows.len() ==> spec_box_for(ls, rows[j], w, h, #[trigger] boxes[j])
}

/// Every kept index is a kept line of `ls`.
proof fn lemma_rows_are_kept(ls: Seq<Seq<char>>, h: u32)
    ensures
        forall|j: int|
            0 <= j < spec_rows(ls, h).len() ==> {
                let i = #[trigger] spec_rows(ls, h)[j];
                0 <= i < ls.len() && spec_keep_line(ls[i], i, h)
            },
    decreases ls.len(),
{
    if ls.len() > 0 {
        lemma_rows_are_kept(ls.drop_last(), h);
        assert(forall|j: int|
            0 <= j < spec_rows(ls.drop_last(), h).len() ==> ls.drop_last()[
                #[trigger] spec_rows(ls.drop_last(), h)[j]
            ] == ls[spec_rows(ls.drop_last(), h)[j]]);
    }
}

/// The simulated boxes never reach beyond the right edge of the image.
proof fn lemma_box_fits_horizontally(w: u32)
    ensures
        spec_box_x(w) + spec_box_w(w) <= w,
{
    assert(w / 10 + (w * 8) / 10 <= w) by (nonlinear_arith);
}

/// Every simulated box lies within the source image: this is the
/// well-behavedness guarantee for regions of a reading.
pub proof fn lemma_boxes_within_image(ls: Seq<Seq<char>>, w: u32, h: u32, boxes: Seq<BoundingBox>)
    requires
        spec_boxes_for(ls, w, h, boxes),
    ensures
        forall|j: int|
            0 <= j < boxes.len() ==> (#[trigger] boxes[j]).x + boxes[j].width <= w && boxes[j].y
                + boxes[j].height <= h,
{
    lemma_rows_are_kept(ls, h);
    lemma_box_fits_horizontally(w);
}

impl CandleOcrModel {
    /// One box per non-blank line that fits within the image, placed on a
    /// fixed grid derived from the image dimensions.
    pub fn generate_mock_bounding_boxes(&self, image: &ImageInfo, text: &str) -> (boxes: Vec<
        BoundingBox,
    >)
        ensures
            spec_boxes_for(spec_lines(text@), image.width, image.height, boxes@),
    {
        let w = image.width;
        let h = image.height;
        let lines = split_lines(text);
        let mut boxes: Vec<BoundingBox> = Vec::new();
        let n = lines.len();
        proof {
            assert(views_of(lines@).take(0) =~= Seq::<Seq<char>>::empty());
        }
        for i in 0..n
            invariant
                n == lines@.len(),
                views_of(lines@) == spec_lines(text@),
                spec_boxes_for(views_of(lines@).take(i as int), w, h, boxes@),
        {
            proof {
                assert(views_of(lines@).take(i as int + 1).drop_last() =~= views_of(lines@).take(
                    i as int,
                ));
                assert(views_of(lines@).take(i as int + 1).last() == lines@[i as int]@);
                assert(forall|k: int|
                    0 <= k < i ==> views_of(lines@).take(i as int + 1)[k] == views_of(lines@).take(
                        i as int,
                    )[k]);
                lemma_rows_are_kept(views_of(lines@).take(i as int), h);
                vstd::arithmetic::div_mod::lemma_div_is_ordered(
                    (w as int) * 8,
                    (u32::MAX as int) * 8,
                    10,
                );
            }
            let keep_blank = !is_blank(lines[i].as_str());
            proof {
                assert((i as u128) * 3 * (h as u128) <= 0xFFFF_FFFF_FFFF_FFFFu128 * 3
                    * 0xFFFF_FFFFu128) by (nonlinear_arith)
                    requires
                        i as u128 <= 0xFFFF_FFFF_FFFF_FFFFu128,
                        h as u128 <= 0xFFFF_FFFFu128,
                ;
                assert((i as u128) * 50 <= 0xFFFF_FFFF_FFFF_FFFFu128 * 50) by (nonlinear_arith)
                    requires
                        i as u128 <= 0xFFFF_FFFF_FFFF_FFFFu128,
                ;
            }
            let y128 = (h as u128) / 5 + (i as u128) * 3 * (h as u128) / 20;
            let bh128 = (h as u128) * 2 / 25;
            if keep_blank && y128 + bh128 <= h as u128 {
                let conf128 = 850u128 + (i as u128) * 50;
                let conf = if conf128 > u32::MAX as u128 {
                    u32::MAX
                } else {
                    conf128 as u32
                };
                let b = BoundingBox {
                    text: lines[i].clone(),
                    confidence: conf,
                    x: w / 10,
                    y: y128 as u32,
                    width: ((w as u64) * 8 / 10) as u32,
                    height: bh128 as u32,
                };
                proof {
                    lemma_box_fits_horizontally(w);
                }
                boxes.push(b);
            }
        }
        proof {
            assert(views_of(lines@).take(n as int) =~= views_of(lines@));
        }
        boxes
    }

    /// Produces the simulated reading for an image: deterministic text,
    /// confidence and regions derived from the dimensions alone.  The
    /// processing time is stamped later by the engine.
    pub fn recognize(&self, image: &ImageInfo) -> (r: Result<OcrResult, BackendError>)
        ensures
            r matches Ok(res) && {
                &&& res.text@ == spec_demo_text(image.width, image.height)
                &&& res.confidence == spec_confidence(image.width, image.height)
                &&& 0 < res.confidence <= 1000
                &&& res.processing_time == 0
                &&& spec_boxes_for(
                    spec_lines(res.text@),
                    image.width,
                    image.height,
                    res.bounding_boxes@,
                )
            },
    {
        let text = self.demo_text(image);
        let confidence = self.confidence_for(image);
        let bounding_boxes = self.generate_mock_bounding_boxes(image, text.as_str());
        Ok(OcrResult { text, confidence, processing_time: 0, bounding_boxes })
    }
}

// ---------------------------------------------------------------------
// The engine: owns the constructed backends, reports availability, and
// runs one request on the preferred backend.
// ---------------------------------------------------------------------

/// The recognition engine.  Availability is a static fact discovered once
/// at construction; requests never re-probe.
pub struct OcrEngine {
    pub candle_model: Option<CandleOcrModel>,
    pub engine_status: EngineStatus,
}

/// The result an engine with backend `m` owes for `image`: the backend's
/// reading, with only the processing time left to the clock.
pub open spec fn spec_engine_result(image: ImageInfo, res: OcrResult) -> bool {
    &&& res.text@ == spec_demo_text(image.width, image.height)
    &&& res.confidence == spec_confidence(image.width, image.height)
    &&& 0 < res.confidence <= 1000
    &&& spec_boxes_for(spec_lines(res.text@), image.width, image.height, res.bounding_boxes@)
}

impl OcrEngine {
    /// The status always reflects which backends were constructed.
    pub open spec fn wf(&self) -> bool {
        self.engine_status == (if self.candle_model is Some {
            EngineStatus::CandleOnly
        } else {
            EngineStatus::NoEngineAvailable
        })
    }

    pub open spec fn spec_has_backend(&self) -> bool {
        self.candle_model is Some
    }

    /// How loading the model-based backend upgrades an engine's status.
    pub fn status_with_candle(prior: EngineStatus) -> (r: EngineStatus)
        ensures
            prior is TesseractOnly ==> r is Ready,
            !(prior is TesseractOnly) ==> r is CandleOnly,
    {
        match prior {
            EngineStatus::TesseractOnly => EngineStatus::Ready,
            _ => EngineStatus::CandleOnly,
        }
    }

    /// Builds an engine around an already probed backend set.
    pub fn with_backends(candle: Option<CandleOcrModel>) -> (r: OcrEngine)
        ensures
            r.wf(),
            r.spec_has_backend() == candle is Some,
    {
        match candle {
            Some(model) => {
                let status = Self::status_with_candle(EngineStatus::NoEngineAvailable);
                OcrEngine { candle_model: Some(model), engine_status: status }
            },
            None => {
                OcrEngine { candle_model: None, engine_status: EngineStatus::NoEngineAvailable }
            },
        }
    }

    /// Probes the backends once and builds the engine; the demo model is
    /// always present, so the fresh engine runs on it.
    pub fn new() -> (r: OcrEngine)
        ensures
            r.wf(),
            r.spec_has_backend(),
    {
        match CandleOcrModel::new() {
            Ok(model) => Self::with_backends(Some(model)),
            Err(_) => Self::with_backends(None),
        }
    }

    pub fn get_status(&self) -> (r: &EngineStatus)
        ensures
            *r == self.engine_status,
            self.wf() ==> (*r is NoEngineAvailable <==> !self.spec_has_backend()),
    {
        &self.engine_status
    }

    /// Runs the preferred backend on a request.  A request on an engine
    /// without a backend fails at once with `NoBackend`; one with a
    /// backend is never silently dropped: it yields the backend's reading,
    /// stamped with the wall-clock duration of the backend call alone.
    pub fn process_image(&self, image: &ImageInfo, _path: &str) -> (r: Result<
        OcrResult,
        EngineError,
    >)
        requires
            self.wf(),
        ensures
            r is Ok <==> self.spec_has_backend(),
            r is Ok <==> !(self.engine_status is NoEngineAvailable),
            r matches Ok(res) ==> spec_engine_result(*image, res),
            r matches Err(e) ==> e is NoBackend,
    {
        let started = now_instant();
        let outcome = match &self.candle_model {
            Some(model) => self.process_with_candle(model, image),
            None => {
                return Err(EngineError::NoBackend);
            },
        };
        let elapsed = elapsed_millis(&started);
        match outcome {
            Ok(mut res) => {
                res.processing_time = elapsed;
                Ok(res)
            },
            Err(e) => Err(EngineError::Backend(e.message)),
        }
    }

    /// Delegates one request to the model-based backend.
    fn process_with_candle(&self, model: &CandleOcrModel, image: &ImageInfo) -> (r: Result<
        OcrResult,
        BackendError,
    >)
        ensures
            r matches Ok(res) && spec_engine_result(*image, res),
    {
        model.recognize(image)
    }
}

} // verus!
