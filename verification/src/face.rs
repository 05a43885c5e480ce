use vstd::prelude::*;
use crate::fraction::Fraction;
use crate::landmarks::FaceLandmarks;
use crate::rect::{NormalizedRect, Rect};

verus! {

/// A confidence score, held as the bit pattern of an IEEE 754 binary32 number.
///
/// A detector means it to lie between zero and one. Nothing here clamps it:
/// it is advice to the caller.
#[derive(Debug, Clone, Copy, PartialEq, Eq, Structural)]
pub struct Score {
    pub bits: u32,
}

impl Score {
    /// Wraps a bit pattern.
    pub fn from_bits(bits: u32) -> (score: Score)
        ensures
            score == (Score { bits }),
    {
        Score { bits }
    }

    /// Returns the bit pattern.
    pub fn to_bits(self) -> (bits: u32)
        ensures
            bits == self.bits,
    {
        self.bits
    }
}

/// One detection as the detector reports it.
#[derive(Debug, Clone, Copy, PartialEq, Eq)]
pub struct BridgeFace {
    /// How sure the detector is that this is a face.
    pub score: Score,
    /// The face's rectangle in pixels: top-left corner, width and height.
    pub x: i32,
    pub y: i32,
    pub w: i32,
    pub h: i32,
    /// Five landmarks as ten coordinates, in the order that
    /// `FaceLandmarks::spec_from_yunet_landmark_array` reads.
    pub lm: [i32; 10],
}

/// A detected face.
///
/// It is built once from a detection and read through its accessors.
#[derive(Debug, Clone, Copy, PartialEq, Eq)]
pub struct Face {
    /// How sure the detector is that the rectangle holds a face.
    confidence: Score,
    /// Where the face is, in pixels. It may reach outside the image.
    rectangle: Rect,
    /// Width and height of the image that the face was found in.
    detection_dimensions: (usize, usize),
    /// The five landmarks of the face.
    landmarks: FaceLandmarks,
}

impl Face {
    /// The score that the face was built with.
    pub closed spec fn spec_confidence(&self) -> Score {
        self.confidence
    }

    /// The rectangle in pixels that the face was built with.
    pub closed spec fn spec_rectangle(&self) -> Rect {
        self.rectangle
    }

    /// Width and height of the image that the face was found in.
    pub closed spec fn spec_detection_dimensions(&self) -> (usize, usize) {
        self.detection_dimensions
    }

    /// The landmarks that the face was built with.
    pub closed spec fn spec_landmarks(&self) -> &FaceLandmarks {
        &self.landmarks
    }

    /// The rectangle in fractions of the image that the face was found in.
    pub open spec fn spec_normalized_rectangle(&self) -> NormalizedRect {
        self.rectangle().spec_normalized(
            self.detection_dimensions().0,
            self.detection_dimensions().1,
        )
    }

    /// The smaller of the normalized width and the normalized height.
    pub open spec fn spec_size(&self) -> Fraction {
        self.spec_normalized_rectangle().w.spec_min(self.spec_normalized_rectangle().h)
    }

    /// Whether this face is what `face_rect` describes, found in an image of
    /// `detection_dimensions`: score, rectangle and landmarks as reported,
    /// nothing scaled, clamped or reordered.
    pub open spec fn derives_from(
        &self,
        face_rect: &BridgeFace,
        detection_dimensions: (usize, usize),
    ) -> bool {
        &&& self.confidence() == face_rect.score
        &&& self.rectangle() == (Rect {
            x: face_rect.x,
            y: face_rect.y,
            w: face_rect.w,
            h: face_rect.h,
        })
        &&& *self.landmarks() == FaceLandmarks::spec_from_yunet_landmark_array(face_rect.lm@)
        &&& self.detection_dimensions() == detection_dimensions
    }

    /// Builds the face that a detection describes. Every detection is taken:
    /// a low score or a negative width is the caller's to judge.
    pub fn from_yunet_bridge_face(
        face_rect: &BridgeFace,
        detection_dimensions: (usize, usize),
    ) -> (face: Face)
        ensures
            face.derives_from(face_rect, detection_dimensions),
    {
        Face {
            confidence: face_rect.score,
            rectangle: Rect::with_size(face_rect.x, face_rect.y, face_rect.w, face_rect.h),
            landmarks: FaceLandmarks::from_yunet_landmark_array(&face_rect.lm),
            detection_dimensions,
        }
    }

    /// How sure the detector is that the rectangle holds a face.
    #[verifier::when_used_as_spec(spec_confidence)]
    pub fn confidence(&self) -> (score: Score)
        ensures
            score == self.spec_confidence(),
    {
        self.confidence
    }

    /// The face's rectangle in pixels.
    #[verifier::when_used_as_spec(spec_rectangle)]
    pub fn rectangle(&self) -> (rect: Rect)
        ensures
            rect == self.spec_rectangle(),
    {
        self.rectangle
    }

    /// Width and height of the image that the face was found in.
    #[verifier::when_used_as_spec(spec_detection_dimensions)]
    pub fn detection_dimensions(&self) -> (dimensions: (usize, usize))
        ensures
            dimensions == self.spec_detection_dimensions(),
    {
        self.detection_dimensions
    }

    /// The smaller of the normalized width and the normalized height: how
    /// much of the frame the face takes. It is no area, so that a wide and
    /// flat rectangle does not count as large.
    #[verifier::when_used_as_spec(spec_size)]
    pub fn size(&self) -> (smaller: Fraction)
        ensures
            smaller == self.spec_size(),
    {
        let rect = self.normalized_rectangle();
        rect.w.min(rect.h)
    }

    /// The face's rectangle in fractions of the image that it was found in:
    /// `x` and `w` over the image's width, `y` and `h` over its height.
    #[verifier::when_used_as_spec(spec_normalized_rectangle)]
    pub fn normalized_rectangle(&self) -> (rect: NormalizedRect)
        ensures
            rect == self.spec_normalized_rectangle(),
    {
        NormalizedRect::with_size(
            Fraction::new(self.rectangle.x, self.detection_dimensions.0),
            Fraction::new(self.rectangle.y, self.detection_dimensions.1),
            Fraction::new(self.rectangle.w, self.detection_dimensions.0),
            Fraction::new(self.rectangle.h, self.detection_dimensions.1),
        )
    }

    /// The five landmarks of the face.
    #[verifier::when_used_as_spec(spec_landmarks)]
    pub fn landmarks(&self) -> (landmarks: &FaceLandmarks)
        ensures
            landmarks == self.spec_landmarks(),
    {
        &self.landmarks
    }
}

} // verus!
