//! What a screen capture reports: the OCR result with its fallbacks, the
//! capture's file naming, and the text that the screenshot tool hands back
//! to the model.
use vstd::prelude::*;
use vstd::string::*;

use crate::text::{contains, contains_text, decimal, decimal_text};

verus! {

/// Text recognised in an image, with the recogniser's mean confidence.
#[derive(Debug, Clone)]
pub struct OcrResult {
    pub extracted_text: String,
    pub confidence: i32,
}

/// Names what `str::trim` leaves of `s`.
pub uninterp spec fn trimmed_of(s: Seq<char>) -> Seq<char>;

/// Relies on std's `str::trim`, which removes leading and trailing white
/// space and depends on the text alone.
#[verifier::external_body]
fn trim_text(s: &str) -> (r: String)
    ensures
        r@ == trimmed_of(s@),
{
    s.trim().to_owned()
}

/// Reported when recognition found no text.
pub const NO_TEXT_DETECTED: &'static str = "No text detected in image";

/// Joins the fallback message and the recogniser's error.
pub const OCR_FAILED_SEPARATOR: &'static str = ". OCR failed: ";

/// Builds OCR results from what the recogniser returned.
#[derive(Debug)]
pub struct OcrService;

impl OcrService {
    /// The result of a recognition that produced `raw_text`, trimmed.
    pub fn recognized(raw_text: &str, confidence: i32) -> (r: OcrResult)
        ensures
            r.extracted_text@ == trimmed_of(raw_text@),
            r.confidence == confidence,
    {
        OcrResult { extracted_text: trim_text(raw_text), confidence }
    }

    /// The result to report for a recognition: an empty text becomes a
    /// notice, and a failed recognition becomes `fallback_message` followed
    /// by the error, both with zero confidence.
    pub fn with_fallback(result: Result<OcrResult, String>, fallback_message: &str) -> (r: OcrResult)
        ensures
            result matches Ok(o) ==> (o.extracted_text@.len() > 0 ==> r == o),
            result matches Ok(o) ==> (o.extracted_text@.len() == 0 ==> r.extracted_text@
                == NO_TEXT_DETECTED@ && r.confidence == 0),
            result matches Err(e) ==> (r.extracted_text@ == fallback_message@ + OCR_FAILED_SEPARATOR@ + e@
                && r.confidence == 0),
    {
        match result {
            Ok(o) => {
                if o.extracted_text.as_str().unicode_len() == 0 {
                    OcrResult { extracted_text: NO_TEXT_DETECTED.to_owned(), confidence: 0 }
                } else {
                    o
                }
            },
            Err(e) => {
                let mut t = fallback_message.to_owned();
                t.append(OCR_FAILED_SEPARATOR);
                t.append(e.as_str());
                OcrResult { extracted_text: t, confidence: 0 }
            },
        }
    }
}

/// A screenshot saved to disk.
#[derive(Debug, Clone)]
pub struct ScreenshotInfo {
    pub file_path: String,
    pub width: u32,
    pub height: u32,
    pub timestamp: String,
}

/// A screenshot with the text recognised in it.
#[derive(Debug, Clone)]
pub struct ScreenshotAnalysis {
    pub screenshot_info: ScreenshotInfo,
    pub ocr_result: OcrResult,
}

/// The width of a capture sent to a model.
pub const HD_WIDTH: u32 = 1280;

/// The height of a capture sent to a model.
pub const HD_HEIGHT: u32 = 720;

/// `width` and `height` as `WxH`.
pub open spec fn dimensions_text(width: u32, height: u32) -> Seq<char> {
    decimal(width as nat) + "x"@ + decimal(height as nat)
}

fn dimensions(width: u32, height: u32) -> (r: String)
    ensures
        r@ == dimensions_text(width, height),
{
    let mut r = decimal_text(width as u64);
    r.append("x");
    let h = decimal_text(height as u64);
    r.append(h.as_str());
    r
}

/// Names and describes screen captures.
#[derive(Debug)]
pub struct ScreenshotService;

impl ScreenshotService {
    /// The file name of a capture of the given size taken at `timestamp`.
    pub fn file_name(width: u32, height: u32, timestamp: &str) -> (r: String)
        ensures
            r@ == "orbit_screenshot_"@ + dimensions_text(width, height) + "_"@ + timestamp@ + ".png"@,
    {
        let mut r = "orbit_screenshot_".to_owned();
        let d = dimensions(width, height);
        r.append(d.as_str());
        r.append("_");
        r.append(timestamp);
        r.append(".png");
        r
    }

    /// What stands in for the recognised text when recognition fails.
    pub fn fallback_message(info: &ScreenshotInfo) -> (r: String)
        ensures
            r@ == "Screenshot captured at "@ + info.timestamp@ + " with dimensions "@ + dimensions_text(
                info.width,
                info.height,
            ) + " pixels"@,
    {
        let mut r = "Screenshot captured at ".to_owned();
        r.append(info.timestamp.as_str());
        r.append(" with dimensions ");
        let d = dimensions(info.width, info.height);
        r.append(d.as_str());
        r.append(" pixels");
        r
    }
}

/// The tool through which a model asks for the user's screen.
#[derive(Debug)]
pub struct ScreenshotTool;

/// Marks the text of a capture whose recognition failed.
pub const CAPTURE_FALLBACK_MARK: &'static str = "Screenshot captured at";

/// The recognised text says something about the screen.
pub open spec fn is_meaningful(trimmed: Seq<char>) -> bool {
    trimmed.len() > 0 && !contains_text(trimmed, CAPTURE_FALLBACK_MARK@)
}

/// The tool's report on a capture of the given size whose recognised text,
/// trimmed, is `trimmed`.
pub open spec fn capture_report(width: u32, height: u32, trimmed: Seq<char>) -> Seq<char> {
    if is_meaningful(trimmed) {
        "I captured a screenshot of your screen ("@ + dimensions_text(width, height)
            + " pixels) and found the following text content:\n\n"@ + trimmed
    } else {
        "I captured a screenshot of your screen ("@ + dimensions_text(width, height)
            + " pixels). The image shows your current display but I couldn't extract readable text from it. This might be because the screen contains mostly graphics, images, or non-text content."@
    }
}

impl ScreenshotTool {
    /// The tool's name as the model sees it.
    pub fn name(&self) -> (r: &'static str)
        ensures
            r@ == "take_screenshot"@,
    {
        "take_screenshot"
    }

    /// The tool's description as the model sees it.
    pub fn description(&self) -> &'static str {
        "Take a screenshot of the user's current screen and analyze its content. Use this tool when the user asks about what's on their screen, needs help with visible content, mentions visual elements, or asks about current applications. Returns information about what's visible on screen."
    }

    /// The report for a capture whose recognised text is already trimmed.
    pub fn report_trimmed(&self, width: u32, height: u32, trimmed: &str) -> (r: String)
        ensures
            r@ == capture_report(width, height, trimmed@),
    {
        let meaningful = trimmed.unicode_len() > 0 && !contains(trimmed, CAPTURE_FALLBACK_MARK);
        let mut r = "I captured a screenshot of your screen (".to_owned();
        let d = dimensions(width, height);
        r.append(d.as_str());
        if meaningful {
            r.append(" pixels) and found the following text content:\n\n");
            r.append(trimmed);
        } else {
            r.append(
                " pixels). The image shows your current display but I couldn't extract readable text from it. This might be because the screen contains mostly graphics, images, or non-text content.",
            );
        }
        r
    }

    /// The report handed back to the model for a capture.
    pub fn report(&self, analysis: &ScreenshotAnalysis) -> (r: String)
        ensures
            r@ == capture_report(
                analysis.screenshot_info.width,
                analysis.screenshot_info.height,
                trimmed_of(analysis.ocr_result.extracted_text@),
            ),
    {
        let trimmed = trim_text(analysis.ocr_result.extracted_text.as_str());
        self.report_trimmed(analysis.screenshot_info.width, analysis.screenshot_info.height, trimmed.as_str())
    }
}

} // verus!
