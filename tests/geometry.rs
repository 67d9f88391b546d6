use qrcode_detector::geometry::{bounding_box, fallback_corners, BoundingBox, CornerData, Point};
use qrcode_detector::pipeline::build_codes;

fn pts(v: &[(i64, i64)]) -> Vec<Point> {
    v.iter().map(|&(x, y)| Point { x, y }).collect()
}

#[test]
fn block_rows_are_read_in_order() {
    // 4 rows of 3 columns: the third column is ignored.
    let values = vec![101, 102, 9, 2901, 103, 9, 2899, 2897, 9, 98, 2904, 9];
    let c = CornerData::from_matrix(4, 3, values).unwrap();
    assert_eq!(c.corners(300, 300), pts(&[(101, 102), (2901, 103), (2899, 2897), (98, 2904)]));
}

#[test]
fn flat_sequence_matches_block() {
    let block = CornerData::from_matrix(4, 2, vec![10, 20, 30, 40, 50, 60, 70, 80]).unwrap();
    let flat = CornerData::from_matrix(8, 1, vec![10, 20, 30, 40, 50, 60, 70, 80]).unwrap();
    let row = CornerData::from_matrix(1, 8, vec![10, 20, 30, 40, 50, 60, 70, 80]).unwrap();
    assert_eq!(flat.corners(5, 5), block.corners(5, 5));
    assert_eq!(row.corners(5, 5), block.corners(5, 5));
    assert_eq!(block.corners(5, 5), pts(&[(10, 20), (30, 40), (50, 60), (70, 80)]));
}

#[test]
fn shape_mismatch_is_refused() {
    assert!(CornerData::from_matrix(4, 2, vec![1, 2, 3]).is_none());
    assert!(CornerData::from_matrix(0, 2, vec![1]).is_none());
    assert!(CornerData::from_matrix(0, 0, vec![]).is_some());
}

#[test]
fn absent_data_falls_back_to_centred_square() {
    // 0.6 * 300 = 180 px side, offset 60 px.
    let p = CornerData::absent().corners(300, 300);
    assert_eq!(p, pts(&[(600, 600), (2400, 600), (2400, 2400), (600, 2400)]));
    let b = bounding_box(&p);
    assert_eq!(b, BoundingBox { x: 600, y: 600, width: 1800, height: 1800 });
}

#[test]
fn fallback_on_wide_image_is_square_and_centred() {
    // 640 x 480: side 288 px, offsets (176, 96) px.
    let p = fallback_corners(640, 480);
    assert_eq!(p, pts(&[(1760, 960), (4640, 960), (4640, 3840), (1760, 3840)]));
    let b = bounding_box(&p);
    assert_eq!(b.width, b.height);
    assert_eq!(2 * b.x + b.width as i64, 6400);
    assert_eq!(2 * b.y + b.height as i64, 4800);
}

#[test]
fn too_few_values_fall_back() {
    let c = CornerData::from_matrix(3, 2, vec![1, 2, 3, 4, 5, 6]).unwrap();
    assert_eq!(c.corners(100, 200), fallback_corners(100, 200));
    // 0.6 * 100 = 60 px side, offsets (20, 70) px.
    assert_eq!(fallback_corners(100, 200), pts(&[(200, 700), (800, 700), (800, 1300), (200, 1300)]));
}

#[test]
fn fallback_on_odd_sizes_stays_exact() {
    // 301 x 301: side 180.6 px, offset 60.2 px.
    let p = fallback_corners(301, 301);
    assert_eq!(p[0], Point { x: 602, y: 602 });
    assert_eq!(p[2], Point { x: 2408, y: 2408 });
}

#[test]
fn bounding_box_encloses_any_order() {
    let p = pts(&[(50, -20), (-30, 40), (70, 10), (0, -60)]);
    assert_eq!(bounding_box(&p), BoundingBox { x: -30, y: -60, width: 100, height: 100 });
}

#[test]
fn bounding_box_of_extreme_values() {
    let p = pts(&[(i64::MIN, i64::MIN), (i64::MAX, i64::MAX), (0, 0), (0, 0)]);
    let b = bounding_box(&p);
    assert_eq!(b.x, i64::MIN);
    assert_eq!(b.width, u64::MAX);
}

#[test]
fn codes_pair_texts_with_corners_by_index() {
    let texts = vec!["first".to_string(), "second".to_string()];
    let corners = vec![CornerData::from_matrix(4, 2, vec![100, 100, 200, 100, 200, 200, 100, 200]).unwrap()];
    let codes = build_codes(&texts, &corners, 300, 300);
    assert_eq!(codes.len(), 2);
    assert_eq!(codes[0].text, "first");
    assert_eq!(codes[0].bbox, BoundingBox { x: 100, y: 100, width: 100, height: 100 });
    // No corner data for the second code: the centred square.
    assert_eq!(codes[1].text, "second");
    assert_eq!(codes[1].points, fallback_corners(300, 300));
    assert_eq!(codes[1].bbox, BoundingBox { x: 600, y: 600, width: 1800, height: 1800 });
}

#[test]
fn no_texts_no_codes() {
    let codes = build_codes(&vec![], &vec![], 10, 10);
    assert!(codes.is_empty());
}
