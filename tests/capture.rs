use orbit::capture::{
    OcrResult, OcrService, ScreenshotAnalysis, ScreenshotInfo, ScreenshotService, ScreenshotTool,
    HD_HEIGHT, HD_WIDTH,
};
use orbit::window::WindowType;

fn info() -> ScreenshotInfo {
    ScreenshotInfo {
        file_path: "/tmp/shot.png".to_string(),
        width: HD_WIDTH,
        height: HD_HEIGHT,
        timestamp: "20240101_120000".to_string(),
    }
}

#[test]
fn recognized_text_is_trimmed() {
    let r = OcrService::recognized("  hello world \n", 87);
    assert_eq!(r.extracted_text, "hello world");
    assert_eq!(r.confidence, 87);
}

#[test]
fn empty_recognition_becomes_notice() {
    let r = OcrService::with_fallback(Ok(OcrResult { extracted_text: String::new(), confidence: 40 }), "fb");
    assert_eq!(r.extracted_text, "No text detected in image");
    assert_eq!(r.confidence, 0);
}

#[test]
fn recognition_is_kept() {
    let r = OcrService::with_fallback(Ok(OcrResult { extracted_text: "text".to_string(), confidence: 40 }), "fb");
    assert_eq!(r.extracted_text, "text");
    assert_eq!(r.confidence, 40);
}

#[test]
fn failed_recognition_uses_fallback() {
    let fallback = ScreenshotService::fallback_message(&info());
    assert_eq!(fallback, "Screenshot captured at 20240101_120000 with dimensions 1280x720 pixels");
    let r = OcrService::with_fallback(Err("no engine".to_string()), &fallback);
    assert_eq!(
        r.extracted_text,
        "Screenshot captured at 20240101_120000 with dimensions 1280x720 pixels. OCR failed: no engine"
    );
    assert_eq!(r.confidence, 0);
}

#[test]
fn capture_file_name() {
    assert_eq!(
        ScreenshotService::file_name(1280, 720, "20240101_120000"),
        "orbit_screenshot_1280x720_20240101_120000.png"
    );
}

#[test]
fn tool_reports_meaningful_text() {
    let tool = ScreenshotTool;
    assert_eq!(tool.name(), "take_screenshot");
    assert!(tool.description().starts_with("Take a screenshot"));
    let analysis = ScreenshotAnalysis {
        screenshot_info: info(),
        ocr_result: OcrResult { extracted_text: "  Ableton Live  ".to_string(), confidence: 90 },
    };
    assert_eq!(
        tool.report(&analysis),
        "I captured a screenshot of your screen (1280x720 pixels) and found the following text content:\n\nAbleton Live"
    );
}

#[test]
fn tool_reports_missing_text() {
    let tool = ScreenshotTool;
    let analysis = ScreenshotAnalysis {
        screenshot_info: info(),
        ocr_result: OcrResult {
            extracted_text: "Screenshot captured at 20240101_120000 with dimensions 1280x720 pixels. OCR failed: x".to_string(),
            confidence: 0,
        },
    };
    let report = tool.report(&analysis);
    assert!(report.starts_with("I captured a screenshot of your screen (1280x720 pixels). The image shows"));
    let blank = ScreenshotAnalysis {
        screenshot_info: info(),
        ocr_result: OcrResult { extracted_text: "   ".to_string(), confidence: 0 },
    };
    assert_eq!(tool.report(&blank), report);
}

#[test]
fn window_types_are_distinct() {
    assert_ne!(WindowType::Main, WindowType::Settings);
    assert_eq!(WindowType::History, WindowType::History);
}
