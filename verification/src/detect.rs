use vstd::prelude::*;
use crate::error::YuNetError;
use crate::face::{BridgeFace, Face};

verus! {

/// Whether a buffer of `len` bytes can hold an image of `width` by `height`
/// pixels that a detector can be asked about: both extents are positive, the
/// height and the row stride of `3 * width` bytes fit a 32-bit signed
/// integer, and the buffer holds `height` rows.
pub open spec fn valid_image(len: nat, width: nat, height: nat) -> bool {
    &&& 0 < width
    &&& 0 < height
    &&& 3 * width <= i32::MAX
    &&& height <= i32::MAX
    &&& height * (3 * width) <= len
}

/// What a detector is handed for an image: the buffer, the width, the height
/// and the row stride in bytes, which is three times the width.
pub open spec fn detector_call(bytes: &[u8], width: usize, height: usize) -> (
    &[u8],
    i32,
    i32,
    i32,
) {
    (bytes, width as i32, height as i32, (3 * width) as i32)
}

/// Whether `faces` are the faces that `detections` describe, one for one and
/// in the same order, each found in an image of `detection_dimensions`.
pub open spec fn faces_derive_from(
    faces: Seq<Face>,
    detections: Seq<BridgeFace>,
    detection_dimensions: (usize, usize),
) -> bool {
    &&& faces.len() == detections.len()
    &&& forall|i: int|
        0 <= i < faces.len() ==> (#[trigger] faces[i]).derives_from(
            &detections[i],
            detection_dimensions,
        )
}

/// Where a detector finds nothing, there are no faces.
pub proof fn lemma_no_detections_no_faces(
    faces: Seq<Face>,
    detections: Seq<BridgeFace>,
    detection_dimensions: (usize, usize),
)
    requires
        faces_derive_from(faces, detections, detection_dimensions),
        detections.len() == 0,
    ensures
        faces == Seq::<Face>::empty(),
{
}

/// Turns the detections of one image into faces, in the order given.
pub fn faces_from_detections(detections: &[BridgeFace], width: usize, height: usize) -> (faces:
    Vec<Face>)
    ensures
        faces_derive_from(faces@, detections@, (width, height)),
{
    let mut faces: Vec<Face> = Vec::new();
    let mut i: usize = 0;
    while i < detections.len()
        invariant
            i <= detections.len(),
            faces_derive_from(faces@, detections@.take(i as int), (width, height)),
        decreases detections.len() - i,
    {
        faces.push(Face::from_yunet_bridge_face(&detections[i], (width, height)));
        i += 1;
    }
    faces
}

/// Finds the faces in an image.
///
/// `bytes` holds the image row by row, three bytes to a pixel in the order
/// blue, green, red, with no padding between rows. `detector` is asked once,
/// with the `detector_call` of the image, and each detection that it reports
/// becomes a face, in the order reported and with `(width, height)` as its
/// detection dimensions. Nothing is sorted or dropped, and a detector that
/// finds nothing gives an empty vector, which is no failure.
///
/// An image that is not a `valid_image` is refused with
/// `YuNetError::InvalidFile`, and the detector is not asked about it.
pub fn detect_faces<D>(bytes: &[u8], width: usize, height: usize, detector: D) -> (result: Result<
    Vec<Face>,
    YuNetError,
>) where D: Fn(&[u8], i32, i32, i32) -> Vec<BridgeFace>
    requires
        valid_image(bytes@.len(), width as nat, height as nat) ==> call_requires(
            detector,
            detector_call(bytes, width, height),
        ),
    ensures
        !valid_image(bytes@.len(), width as nat, height as nat) ==> result == Err::<
            Vec<Face>,
            YuNetError,
        >(YuNetError::InvalidFile),
        valid_image(bytes@.len(), width as nat, height as nat) ==> result is Ok && exists|
            detections: Vec<BridgeFace>,
        |
            #[trigger] call_ensures(detector, detector_call(bytes, width, height), detections)
                && faces_derive_from(result->Ok_0@, detections@, (width, height)),
{
    if width == 0 || height == 0 || width > 0x7fff_ffff / 3 || height > 0x7fff_ffff {
        return Err(YuNetError::InvalidFile);
    }
    let step: u64 = 3 * (width as u64);
    assert(height * step <= 0x7fff_ffff * 0x7fff_ffff) by (nonlinear_arith)
        requires
            0 <= height <= 0x7fff_ffff,
            0 <= step <= 0x7fff_ffff,
    ;
    let needed: u64 = (height as u64) * step;
    assert(needed == (height as nat) * (3 * (width as nat)));
    if (bytes.len() as u64) < needed {
        return Err(YuNetError::InvalidFile);
    }
    let detections = detector(bytes, width as i32, height as i32, step as i32);
    let faces = faces_from_detections(detections.as_slice(), width, height);
    Ok(faces)
}

} // verus!
