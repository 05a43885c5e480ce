pub mod detect;
pub mod error;
pub mod face;
pub mod fraction;
pub mod landmarks;
pub mod rect;

pub use detect::{detect_faces, faces_from_detections};
pub use error::YuNetError;
pub use face::{BridgeFace, Face, Score};
pub use fraction::Fraction;
pub use landmarks::FaceLandmarks;
pub use rect::{NormalizedRect, Point, Rect};
