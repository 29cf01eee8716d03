use screengrab::errors::ToolError;
use screengrab::geometry::{
    Point, NormRect, CaptureRegion, normalize, plan_extraction, full_screen_region,
};

#[test]
fn normalize_forward_drag() {
    let r = normalize(Point { x: 100, y: 200 }, Point { x: 500, y: 600 });
    assert_eq!(r, NormRect { x: 100, y: 200, width: 400, height: 400 });
}

#[test]
fn normalize_is_symmetric() {
    let pairs = [
        (Point { x: 100, y: 200 }, Point { x: 500, y: 600 }),
        (Point { x: 500, y: 600 }, Point { x: 100, y: 200 }),
        (Point { x: -5, y: 7 }, Point { x: 3, y: -9 }),
        (Point { x: 0, y: 0 }, Point { x: 0, y: 0 }),
        (Point { x: i16::MIN, y: i16::MIN }, Point { x: i16::MAX, y: i16::MAX }),
    ];
    for (a, b) in pairs {
        assert_eq!(normalize(a, b), normalize(b, a));
    }
}

#[test]
fn normalize_extreme_span_fills_u16() {
    let r = normalize(
        Point { x: i16::MIN, y: i16::MIN },
        Point { x: i16::MAX, y: i16::MAX },
    );
    assert_eq!(r, NormRect { x: i16::MIN, y: i16::MIN, width: 65535, height: 65535 });
}

#[test]
fn normalize_zero_area() {
    let r = normalize(Point { x: 7, y: 9 }, Point { x: 7, y: 9 });
    assert_eq!(r, NormRect { x: 7, y: 9, width: 0, height: 0 });
}

#[test]
fn plan_extraction_accepts_in_bounds_rect() {
    let r = NormRect { x: 100, y: 200, width: 400, height: 400 };
    let reg = plan_extraction(r, 1920, 1080).unwrap();
    assert_eq!(reg, CaptureRegion { x: 100, y: 200, width: 400, height: 400 });
}

#[test]
fn plan_extraction_rejects_zero_width() {
    let r = NormRect { x: 10, y: 10, width: 0, height: 5 };
    assert_eq!(plan_extraction(r, 1920, 1080), Err(ToolError::Capture));
}

#[test]
fn plan_extraction_rejects_negative_origin() {
    let r = NormRect { x: -1, y: 10, width: 5, height: 5 };
    assert_eq!(plan_extraction(r, 1920, 1080), Err(ToolError::Capture));
}

#[test]
fn plan_extraction_rejects_out_of_bounds() {
    let r = NormRect { x: 1900, y: 0, width: 40, height: 40 };
    assert_eq!(plan_extraction(r, 1920, 1080), Err(ToolError::Capture));
}

#[test]
fn plan_extraction_accepts_exact_fit() {
    let r = NormRect { x: 0, y: 0, width: 1920, height: 1080 };
    let reg = plan_extraction(r, 1920, 1080).unwrap();
    assert_eq!(reg, CaptureRegion { x: 0, y: 0, width: 1920, height: 1080 });
}

#[test]
fn full_screen_region_covers_screen() {
    let reg = full_screen_region(1920, 1080);
    assert_eq!(reg, CaptureRegion { x: 0, y: 0, width: 1920, height: 1080 });
}
