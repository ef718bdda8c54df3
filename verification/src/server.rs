use vstd::prelude::*;

use crate::fclt::FcltData;
use crate::server_metadata::MetadataConfig;

verus! {

/// The body of an answer of the server's HTTP interface.
pub struct GenericResponse {
    pub status: String,
    pub message: String,
}

/// The facility whose collection the test endpoints stop and restart.
pub const WATCHED_FCLT_ID: &'static str = "061a8bd0-a84b-11ed-abb7-27c66719279e";

impl GenericResponse {
    /// A successful answer carrying `message`.
    pub fn success(message: &str) -> (r: GenericResponse)
        ensures
            r.status@ == "success"@,
            r.message@ == message@,
    {
        GenericResponse { status: String::from_str("success"), message: String::from_str(message) }
    }
}

/// The answer of `/api/test`, which stops the watched facility's collection.
pub fn health_check_response() -> (r: GenericResponse)
    ensures
        r.status@ == "success"@,
        r.message@ == "Build Simple CRUD API with Rust and Actix Web"@,
{
    GenericResponse::success("Build Simple CRUD API with Rust and Actix Web")
}

/// The answer of `/api/test2`, which restarts the watched facility's
/// collection.
pub fn health_check_response2() -> (r: GenericResponse)
    ensures
        r.status@ == "success"@,
        r.message@ == "test2"@,
{
    GenericResponse::success("test2")
}

/// The collection settings of a facility's camera: its address, ports,
/// credentials, identity and model, the image directory (`./` where none is
/// configured) and the face recognition service (none where none is
/// configured).
pub fn metadata_config_for(
    fd: &FcltData,
    img_save_path: Option<String>,
    face_recognition_url: Option<String>,
) -> (c: MetadataConfig)
    ensures
        c.camera_ip@ == fd.camera_ip@,
        c.http_port@ == fd.http_port@,
        c.rtsp_port@ == fd.rtsp_port@,
        c.username@ == fd.camera_id@,
        c.password@ == fd.camera_pass@,
        c.fclt_id@ == fd.fclt_id@,
        c.ai_cam_model@ == fd.ai_cam_model@,
        c.img_save_path@ == match img_save_path {
            Some(p) => p@,
            None => "./"@,
        },
        c.face_recognition_url@ == match face_recognition_url {
            Some(u) => u@,
            None => Seq::<char>::empty(),
        },
{
    let img_save_path = match img_save_path {
        Some(p) => p,
        None => String::from_str("./"),
    };
    let face_recognition_url = match face_recognition_url {
        Some(u) => u,
        None => String::new(),
    };
    MetadataConfig {
        camera_ip: fd.camera_ip.clone(),
        http_port: fd.http_port.clone(),
        rtsp_port: fd.rtsp_port.clone(),
        username: fd.camera_id.clone(),
        password: fd.camera_pass.clone(),
        img_save_path,
        fclt_id: fd.fclt_id.clone(),
        ai_cam_model: fd.ai_cam_model.clone(),
        face_recognition_url,
    }
}

} // verus!
