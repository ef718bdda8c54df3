use vstd::prelude::*;

verus! {

/// The face recognition service's address for registering a face:
/// `<service>/lunaApi/createFace`.
pub fn create_face_url(face_recognition_url: &String) -> (r: String)
    ensures
        r@ == face_recognition_url@ + "/lunaApi/createFace"@,
{
    let mut r = face_recognition_url.clone();
    r.append("/lunaApi/createFace");
    r
}

} // verus!
