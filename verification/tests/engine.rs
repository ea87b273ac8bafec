use ocr_core::ImageInfo;
use ocr_core::ocr::{BoundingBox, CandleOcrModel, EngineError, EngineStatus, OcrEngine};

#[test]
fn test_ocr_engine_creation() {
    let engine = OcrEngine::new();
    assert!(matches!(engine.get_status(), EngineStatus::CandleOnly));
}

#[test]
fn test_candle_model_recognition() {
    let model = CandleOcrModel::new().unwrap();
    let image = ImageInfo::new(100, 100);
    let result = model.recognize(&image).unwrap();
    assert!(!result.text.is_empty());
    assert!(result.confidence > 0);
}

#[test]
fn engine_without_backend_is_unavailable() {
    let engine = OcrEngine::with_backends(None);
    assert!(matches!(engine.get_status(), EngineStatus::NoEngineAvailable));
    let image = ImageInfo::new(100, 100);
    let r = engine.process_image(&image, "missing.png");
    assert!(matches!(r, Err(EngineError::NoBackend)));
}

#[test]
fn engine_with_backend_always_answers() {
    let engine = OcrEngine::new();
    let image = ImageInfo::new(640, 480);
    let result = engine.process_image(&image, "x.png").unwrap();
    assert!(result.confidence > 0);
    assert!(result.confidence <= 1000);
    assert!(!result.text.is_empty());
}

#[test]
fn confidence_formula_exact() {
    let model = CandleOcrModel::new().unwrap();
    // 100 * 100 = 10000 pixels: bonus 10000 / 5000 = 2, so 752 per-mille.
    assert_eq!(model.confidence_for(&ImageInfo::new(100, 100)), 752);
    // A huge image saturates the bonus at 200: 950 per-mille.
    assert_eq!(model.confidence_for(&ImageInfo::new(4000, 4000)), 950);
    // An empty image gets the bare base confidence.
    assert_eq!(model.confidence_for(&ImageInfo::new(0, 0)), 750);
}

#[test]
fn delay_formula_exact() {
    let model = CandleOcrModel::new().unwrap();
    assert_eq!(model.simulated_delay(&ImageInfo::new(100, 100)), 50);
    assert_eq!(model.simulated_delay(&ImageInfo::new(1000, 1000)), 60);
}

#[test]
fn demo_text_document_exact() {
    let model = CandleOcrModel::new().unwrap();
    // 100 + 100 = 200, and 200 % 4 = 0: the document template.
    let text = model.demo_text(&ImageInfo::new(100, 100));
    assert_eq!(
        text,
        "OCR RECOGNITION REPORT\n\nProject: intelligent document processing\nDate: 2024-01-15\n\n\
         Status:\n  image preprocessing done\n  text recognition done\n  formatting kept\n\n\
         Image info:\n  resolution: 100 x 100\n  format: RGB\n  size: about 27KB"
    );
}

#[test]
fn demo_text_selects_by_dimensions() {
    let model = CandleOcrModel::new().unwrap();
    // 100 + 101 = 201, and 201 % 4 = 1: the product-list template.
    let table = model.demo_text(&ImageInfo::new(100, 101));
    assert!(table.starts_with("PRODUCT LIST"));
    // 101 + 101 = 202, and 202 % 4 = 2: the source-code template.
    let code = model.demo_text(&ImageInfo::new(101, 101));
    assert!(code.starts_with("function processOcr()"));
    // 101 + 102 = 203, and 203 % 4 = 3: the poem template.
    let poem = model.demo_text(&ImageInfo::new(101, 102));
    assert!(poem.starts_with("Spring Dawn"));
    assert!(poem.ends_with("confidence: 75.2 percent"));
}

#[test]
fn bounding_boxes_within_image() {
    let model = CandleOcrModel::new().unwrap();
    let image = ImageInfo::new(100, 100);
    let result = model.recognize(&image).unwrap();
    assert!(!result.bounding_boxes.is_empty());
    for b in &result.bounding_boxes {
        assert!(b.x + b.width <= 100);
        assert!(b.y + b.height <= 100);
    }
}

#[test]
fn bounding_boxes_exact_geometry() {
    let model = CandleOcrModel::new().unwrap();
    let image = ImageInfo::new(100, 100);
    let boxes = model.generate_mock_bounding_boxes(&image, "first\n\nthird");
    // Lines 0 and 2 are non-blank; each box sits on the fixed grid.
    assert_eq!(boxes.len(), 2);
    let expect = |text: &str, i: u32| BoundingBox {
        text: text.to_string(),
        confidence: 850 + i * 50,
        x: 10,
        y: 20 + 15 * i,
        width: 80,
        height: 8,
    };
    assert_eq!(boxes[0], expect("first", 0));
    assert_eq!(boxes[1], expect("third", 2));
}

#[test]
fn bounding_boxes_skip_lines_below_the_image() {
    let model = CandleOcrModel::new().unwrap();
    let image = ImageInfo::new(100, 100);
    let many = "a\nb\nc\nd\ne\nf\ng\nh";
    let boxes = model.generate_mock_bounding_boxes(&image, many);
    // Boxes fit while 20 + 15 * i + 8 <= 100, so only lines 0 ..= 4.
    assert_eq!(boxes.len(), 5);
    for b in &boxes {
        assert!(b.y + b.height <= 100);
    }
}

#[test]
fn engine_stamps_processing_time() {
    let engine = OcrEngine::new();
    let image = ImageInfo::new(50, 50);
    let result = engine.process_image(&image, "x.png").unwrap();
    // The demo backend answers in well under a minute.
    assert!(result.processing_time < 60_000);
}

#[test]
fn status_upgrade_logic() {
    assert!(matches!(
        OcrEngine::status_with_candle(EngineStatus::TesseractOnly),
        EngineStatus::Ready
    ));
    assert!(matches!(
        OcrEngine::status_with_candle(EngineStatus::NoEngineAvailable),
        EngineStatus::CandleOnly
    ));
}

#[test]
fn engine_error_describe() {
    let s = EngineError::NoBackend.describe();
    assert_eq!(s, "no OCR engine available; check the installed backends");
    let s = EngineError::Backend("model crashed".to_string()).describe();
    assert_eq!(s, "model crashed");
}
