use vstd::prelude::*;

use crate::text::{chars_of, contains_chars, remove_quotes, seq_contains, string_of, without_quotes};

verus! {

/// One typed setting of a facility as the facility store keeps it: its key,
/// its label and the text that its stored value prints as.
pub struct FcltTypeData {
    pub data_key: String,
    pub label: String,
    pub value: String,
}

/// A facility as the facility store keeps it.
pub struct FcltModel {
    pub fclt_id: String,
    pub fclt_name: String,
    pub fclt_type_data: Vec<FcltTypeData>,
}

/// A facility's camera as the server uses it.
pub struct FcltData {
    pub fclt_id: String,
    pub fclt_name: String,
    pub camera_ip: String,
    pub rtsp_port: String,
    pub http_port: String,
    pub camera_id: String,
    pub camera_pass: String,
    pub ai_cam_model: String,
}

/// The camera setting that a setting key names.
pub enum FcltField {
    CameraIp,
    RtspPort,
    CameraId,
    CameraPass,
    AiCamModel,
    HttpPort,
    Unused,
}

/// The camera setting that a key names: the first of `cameraIp`, `rtspPort`,
/// `cameraId`, `cameraPass`, `aiCamModel`, `httpPort` that it contains.
pub open spec fn field_of(key: Seq<char>) -> FcltField {
    if seq_contains(key, "cameraIp"@) {
        FcltField::CameraIp
    } else if seq_contains(key, "rtspPort"@) {
        FcltField::RtspPort
    } else if seq_contains(key, "cameraId"@) {
        FcltField::CameraId
    } else if seq_contains(key, "cameraPass"@) {
        FcltField::CameraPass
    } else if seq_contains(key, "aiCamModel"@) {
        FcltField::AiCamModel
    } else if seq_contains(key, "httpPort"@) {
        FcltField::HttpPort
    } else {
        FcltField::Unused
    }
}

/// The value of the setting `f`: that of the last entry whose key names it,
/// without double quotes, or `default` where none does.
pub open spec fn setting_of(entries: Seq<FcltTypeData>, f: FcltField, default: Seq<char>) -> Seq<char>
    decreases entries.len(),
{
    if entries.len() == 0 {
        default
    } else if field_of(entries.last().data_key@) == f {
        remove_quotes(entries.last().value@)
    } else {
        setting_of(entries.drop_last(), f, default)
    }
}

/// `d` is the camera of the facility `m`: its identity and name, and each
/// setting read from the typed data (empty by default, port `80` for HTTP).
pub open spec fn fclt_data_of(m: FcltModel, d: FcltData) -> bool {
    let e = m.fclt_type_data@;
    &&& d.fclt_id@ == m.fclt_id@
    &&& d.fclt_name@ == m.fclt_name@
    &&& d.camera_ip@ == setting_of(e, FcltField::CameraIp, Seq::empty())
    &&& d.rtsp_port@ == setting_of(e, FcltField::RtspPort, Seq::empty())
    &&& d.camera_id@ == setting_of(e, FcltField::CameraId, Seq::empty())
    &&& d.camera_pass@ == setting_of(e, FcltField::CameraPass, Seq::empty())
    &&& d.ai_cam_model@ == setting_of(e, FcltField::AiCamModel, Seq::empty())
    &&& d.http_port@ == setting_of(e, FcltField::HttpPort, "80"@)
}

/// Whether `t` names the literal `lit`.
fn names(t: &Vec<char>, lit: &str) -> (r: bool)
    ensures
        r == seq_contains(t@, lit@),
{
    let p = chars_of(lit);
    contains_chars(t, &p)
}

/// The camera setting that a key names.
pub fn field_for(key: &String) -> (f: FcltField)
    ensures
        f == field_of(key@),
{
    let k = chars_of(key.as_str());
    if names(&k, "cameraIp") {
        FcltField::CameraIp
    } else if names(&k, "rtspPort") {
        FcltField::RtspPort
    } else if names(&k, "cameraId") {
        FcltField::CameraId
    } else if names(&k, "cameraPass") {
        FcltField::CameraPass
    } else if names(&k, "aiCamModel") {
        FcltField::AiCamModel
    } else if names(&k, "httpPort") {
        FcltField::HttpPort
    } else {
        FcltField::Unused
    }
}

/// The camera of one facility, read from its typed settings in order, a later
/// setting replacing an earlier one.
pub fn fclt_data(m: &FcltModel) -> (d: FcltData)
    ensures
        fclt_data_of(*m, d),
{
    let e = &m.fclt_type_data;
    let mut camera_ip: Vec<char> = Vec::new();
    let mut rtsp_port: Vec<char> = Vec::new();
    let mut camera_id: Vec<char> = Vec::new();
    let mut camera_pass: Vec<char> = Vec::new();
    let mut ai_cam_model: Vec<char> = Vec::new();
    let mut http_port: Vec<char> = chars_of("80");
    let mut i: usize = 0;
    while i < e.len()
        invariant
            i <= e@.len(),
            camera_ip@ == setting_of(e@.take(i as int), FcltField::CameraIp, Seq::empty()),
            rtsp_port@ == setting_of(e@.take(i as int), FcltField::RtspPort, Seq::empty()),
            camera_id@ == setting_of(e@.take(i as int), FcltField::CameraId, Seq::empty()),
            camera_pass@ == setting_of(e@.take(i as int), FcltField::CameraPass, Seq::empty()),
            ai_cam_model@ == setting_of(e@.take(i as int), FcltField::AiCamModel, Seq::empty()),
            http_port@ == setting_of(e@.take(i as int), FcltField::HttpPort, "80"@),
        decreases e.len() - i,
    {
        assert(e@.take(i + 1).drop_last() =~= e@.take(i as int));
        assert(e@.take(i + 1).last() == e@[i as int]);
        let value = without_quotes(&chars_of(e[i].value.as_str()));
        match field_for(&e[i].data_key) {
            FcltField::CameraIp => camera_ip = value,
            FcltField::RtspPort => rtsp_port = value,
            FcltField::CameraId => camera_id = value,
            FcltField::CameraPass => camera_pass = value,
            FcltField::AiCamModel => ai_cam_model = value,
            FcltField::HttpPort => http_port = value,
            FcltField::Unused => {},
        }
        i = i + 1;
    }
    assert(e@.take(e@.len() as int) =~= e@);
    FcltData {
        fclt_id: m.fclt_id.clone(),
        fclt_name: m.fclt_name.clone(),
        camera_ip: string_of(&camera_ip),
        rtsp_port: string_of(&rtsp_port),
        http_port: string_of(&http_port),
        camera_id: string_of(&camera_id),
        camera_pass: string_of(&camera_pass),
        ai_cam_model: string_of(&ai_cam_model),
    }
}

/// The cameras of all facilities, in the store's order.
pub fn fclt_datas(models: &Vec<FcltModel>) -> (ds: Vec<FcltData>)
    ensures
        ds@.len() == models@.len(),
        forall|k: int| 0 <= k < models@.len() ==> fclt_data_of(models@[k], #[trigger] ds@[k]),
{
    let mut ds: Vec<FcltData> = Vec::new();
    let mut i: usize = 0;
    while i < models.len()
        invariant
            i <= models@.len(),
            ds@.len() == i,
            forall|k: int| 0 <= k < i ==> fclt_data_of(models@[k], #[trigger] ds@[k]),
        decreases models.len() - i,
    {
        ds.push(fclt_data(&models[i]));
        i = i + 1;
    }
    ds
}

} // verus!
