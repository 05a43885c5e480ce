use vstd::prelude::*;
use crate::rect::Point;

verus! {

/// Five points of a face.
///
/// Right and left are those of the person: the right eye is seen on the left
/// side of the image. A point may lie outside the image, since a detector
/// places a hidden landmark by what it does see.
#[derive(Debug, Clone, Copy, PartialEq, Eq, Structural)]
pub struct FaceLandmarks {
    pub right_eye: Point,
    pub left_eye: Point,
    pub nose: Point,
    pub mouth_right: Point,
    pub mouth_left: Point,
}

impl FaceLandmarks {
    /// The landmarks that ten coordinates stand for: five pairs of `x` and
    /// `y`, in the order right eye, left eye, nose, right corner of the
    /// mouth, left corner of the mouth.
    pub open spec fn spec_from_yunet_landmark_array(landmarks: Seq<i32>) -> FaceLandmarks {
        FaceLandmarks {
            right_eye: Point { x: landmarks[0], y: landmarks[1] },
            left_eye: Point { x: landmarks[2], y: landmarks[3] },
            nose: Point { x: landmarks[4], y: landmarks[5] },
            mouth_right: Point { x: landmarks[6], y: landmarks[7] },
            mouth_left: Point { x: landmarks[8], y: landmarks[9] },
        }
    }

    /// Reads the landmarks out of the ten coordinates of a detection, each
    /// coordinate unchanged.
    pub fn from_yunet_landmark_array(landmarks: &[i32; 10]) -> (result: FaceLandmarks)
        ensures
            result == Self::spec_from_yunet_landmark_array(landmarks@),
    {
        FaceLandmarks {
            right_eye: Point::new(landmarks[0], landmarks[1]),
            left_eye: Point::new(landmarks[2], landmarks[3]),
            nose: Point::new(landmarks[4], landmarks[5]),
            mouth_right: Point::new(landmarks[6], landmarks[7]),
            mouth_left: Point::new(landmarks[8], landmarks[9]),
        }
    }
}

} // verus!
