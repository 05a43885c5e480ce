use rusty_yunet::{BridgeFace, Face, FaceLandmarks, Fraction, Point, Rect, Score};

fn sample_detection() -> BridgeFace {
    BridgeFace {
        score: Score::from_bits(0.9f32.to_bits()),
        x: 20,
        y: 10,
        w: 40,
        h: 20,
        lm: [10, 20, 30, 40, 50, 60, 70, 80, 90, 100],
    }
}

fn value(fraction: Fraction) -> f32 {
    fraction.numerator as f32 / fraction.denominator as f32
}

#[test]
fn score_keeps_its_bits() {
    assert_eq!(Score::from_bits(0x3f66_6666).to_bits(), 0x3f66_6666);
    assert_eq!(Score::from_bits(0).to_bits(), 0);
    assert_eq!(Score::from_bits(u32::MAX).bits, u32::MAX);
}

#[test]
fn confidence_is_the_score_unchanged() {
    let face = Face::from_yunet_bridge_face(&sample_detection(), (200, 100));
    assert_eq!(face.confidence(), Score::from_bits(0.9f32.to_bits()));
    assert_eq!(f32::from_bits(face.confidence().to_bits()), 0.9);
}

#[test]
fn confidence_is_not_clamped() {
    for score in [-0.5f32, 0.0, 1.0, 1.5, f32::INFINITY, f32::NAN] {
        let mut raw = sample_detection();
        raw.score = Score::from_bits(score.to_bits());
        let face = Face::from_yunet_bridge_face(&raw, (200, 100));
        assert_eq!(face.confidence().to_bits(), score.to_bits());
    }
}

#[test]
fn rectangle_is_the_reported_rectangle() {
    let face = Face::from_yunet_bridge_face(&sample_detection(), (200, 100));
    assert_eq!(face.rectangle(), Rect::with_size(20, 10, 40, 20));
    let rect = face.rectangle();
    assert_eq!((rect.x as f32, rect.y as f32, rect.w as f32, rect.h as f32), (20.0, 10.0, 40.0, 20.0));
}

#[test]
fn rectangle_keeps_negative_dimensions() {
    let mut raw = sample_detection();
    raw.x = -8;
    raw.w = -40;
    raw.h = -20;
    let face = Face::from_yunet_bridge_face(&raw, (200, 100));
    assert_eq!(face.rectangle(), Rect { x: -8, y: 10, w: -40, h: -20 });
}

#[test]
fn landmarks_are_the_reported_landmarks() {
    let face = Face::from_yunet_bridge_face(&sample_detection(), (200, 100));
    let landmarks = face.landmarks();
    assert_eq!(landmarks.right_eye, Point::new(10, 20));
    assert_eq!(landmarks.left_eye, Point::new(30, 40));
    assert_eq!(landmarks.nose, Point::new(50, 60));
    assert_eq!(landmarks.mouth_right, Point::new(70, 80));
    assert_eq!(landmarks.mouth_left, Point::new(90, 100));
    assert_eq!(
        *landmarks,
        FaceLandmarks::from_yunet_landmark_array(&[10, 20, 30, 40, 50, 60, 70, 80, 90, 100])
    );
}

#[test]
fn detection_dimensions_are_stored_unchanged() {
    let face = Face::from_yunet_bridge_face(&sample_detection(), (200, 100));
    assert_eq!(face.detection_dimensions(), (200, 100));
    let face = Face::from_yunet_bridge_face(&sample_detection(), (0, usize::MAX));
    assert_eq!(face.detection_dimensions(), (0, usize::MAX));
}

#[test]
fn normalized_rectangle_divides_by_the_detection_dimensions() {
    let face = Face::from_yunet_bridge_face(&sample_detection(), (200, 100));
    let rect = face.normalized_rectangle();
    assert_eq!(rect.x, Fraction::new(20, 200));
    assert_eq!(rect.y, Fraction::new(10, 100));
    assert_eq!(rect.w, Fraction::new(40, 200));
    assert_eq!(rect.h, Fraction::new(20, 100));
    assert_eq!((value(rect.x), value(rect.y), value(rect.w), value(rect.h)), (0.1, 0.1, 0.2, 0.2));
}

#[test]
fn normalized_rectangle_pairs_each_field_with_its_own_dimension() {
    let raw = BridgeFace { score: Score::from_bits(0), x: 1, y: 2, w: 3, h: 4, lm: [0; 10] };
    let rect = Face::from_yunet_bridge_face(&raw, (640, 480)).normalized_rectangle();
    assert_eq!(rect.x, Fraction::new(1, 640));
    assert_eq!(rect.y, Fraction::new(2, 480));
    assert_eq!(rect.w, Fraction::new(3, 640));
    assert_eq!(rect.h, Fraction::new(4, 480));
}

#[test]
fn normalized_rectangle_does_not_guard_a_zero_dimension() {
    let rect = Face::from_yunet_bridge_face(&sample_detection(), (0, 100)).normalized_rectangle();
    assert_eq!(rect.x, Fraction::new(20, 0));
    assert_eq!(rect.w, Fraction::new(40, 0));
    assert_eq!(rect.y, Fraction::new(10, 100));
    assert_eq!(value(rect.w), f32::INFINITY);
}

#[test]
fn size_is_the_smaller_normalized_extent() {
    let face = Face::from_yunet_bridge_face(&sample_detection(), (200, 100));
    assert_eq!(face.size(), Fraction::new(40, 200));
    assert_eq!(value(face.size()), 0.2);
}

#[test]
fn size_of_a_wide_flat_rectangle_is_its_height() {
    let raw = BridgeFace { score: Score::from_bits(0), x: 0, y: 0, w: 600, h: 12, lm: [0; 10] };
    let face = Face::from_yunet_bridge_face(&raw, (640, 480));
    assert_eq!(face.size(), Fraction::new(12, 480));
    assert_eq!(value(face.size()), 0.025);
}

#[test]
fn size_of_a_tall_narrow_rectangle_is_its_width() {
    let raw = BridgeFace { score: Score::from_bits(0), x: 0, y: 0, w: 16, h: 400, lm: [0; 10] };
    let face = Face::from_yunet_bridge_face(&raw, (640, 480));
    assert_eq!(face.size(), Fraction::new(16, 640));
    assert_eq!(value(face.size()), 0.025);
}

#[test]
fn size_with_a_negative_extent_is_negative() {
    let raw = BridgeFace { score: Score::from_bits(0), x: 0, y: 0, w: -64, h: 48, lm: [0; 10] };
    let face = Face::from_yunet_bridge_face(&raw, (640, 480));
    assert_eq!(face.size(), Fraction::new(-64, 640));
    assert_eq!(value(face.size()), -0.1);
}

#[test]
fn size_with_a_zero_dimension() {
    let face = Face::from_yunet_bridge_face(&sample_detection(), (0, 100));
    assert_eq!(face.size(), Fraction::new(20, 100));
    let face = Face::from_yunet_bridge_face(&sample_detection(), (200, 0));
    assert_eq!(face.size(), Fraction::new(40, 200));
    let mut raw = sample_detection();
    raw.w = 0;
    let face = Face::from_yunet_bridge_face(&raw, (0, 100));
    assert_eq!(face.size(), Fraction::new(20, 100));
    raw.w = -1;
    let face = Face::from_yunet_bridge_face(&raw, (0, 100));
    assert_eq!(face.size(), Fraction::new(-1, 0));
}

#[test]
fn face_is_a_value() {
    let face = Face::from_yunet_bridge_face(&sample_detection(), (200, 100));
    let copy = face.clone();
    assert_eq!(face, copy);
    assert_ne!(face, Face::from_yunet_bridge_face(&sample_detection(), (200, 101)));
}
