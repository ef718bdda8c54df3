use vstd::prelude::*;
use vstd::utf8::{decode_utf8, valid_utf8};

use crate::bestshot::Bestshot;
use crate::frame::frame_time_ok;
use crate::hanwha;
use crate::json::{JsonMember, JsonValue};
use crate::metadata::Metadata;
use crate::text::{chars_of, contains_chars, seq_contains};
use crate::truen;

verus! {

/// How the server reaches one camera and where it files what it collects.
#[derive(Clone)]
pub struct MetadataConfig {
    pub camera_ip: String,
    pub http_port: String,
    pub rtsp_port: String,
    pub username: String,
    pub password: String,
    pub img_save_path: String,
    pub fclt_id: String,
    pub ai_cam_model: String,
    pub face_recognition_url: String,
}

/// The identity of a tracked object.
pub struct MetadataObject {
    pub object_id: String,
}

/// The camera families whose metadata the server reads.
pub enum CameraModel {
    Hanwha,
    Truen,
    Other,
}

/// The family that a camera model text names: `hanwha` before `truen`.
pub open spec fn model_of(m: Seq<char>) -> CameraModel {
    if seq_contains(m, "hanwha"@) {
        CameraModel::Hanwha
    } else if seq_contains(m, "truen"@) {
        CameraModel::Truen
    } else {
        CameraModel::Other
    }
}

/// The RTSP address of a camera: `rtsp://<ip>:<port>/profile1/media.smp`
/// for Hanwha, `rtsp://<ip>:<port>/video1` for Truen, empty otherwise.
pub open spec fn rtsp_url_of(c: MetadataConfig) -> Seq<char> {
    match model_of(c.ai_cam_model@) {
        CameraModel::Hanwha => "rtsp://"@ + c.camera_ip@ + ":"@ + c.rtsp_port@ + "/profile1/media.smp"@,
        CameraModel::Truen => "rtsp://"@ + c.camera_ip@ + ":"@ + c.rtsp_port@ + "/video1"@,
        CameraModel::Other => Seq::empty(),
    }
}

/// What one metadata message yields: the metadata to send, stamped with the
/// facility, and the best-shot record of each object of the frame.
pub struct MessageOutcome {
    pub metadata: Metadata,
    pub bestshots: Vec<Option<Bestshot>>,
}

/// Why a metadata message could not be read.
pub enum DecodeError {
    /// The message is not UTF-8 text.
    NotUtf8,
    /// The text is not XML.
    NotXml,
}

/// The JSON that an ONVIF XML text turns into (named: `quickxml_to_serde`
/// with numbers kept where they lead with zero, no attribute prefix, text
/// nodes under `txt` and empty elements as `null`); `None` where the text is
/// not XML.
pub uninterp spec fn metadata_json_of(xml: Seq<char>) -> Option<JsonValue>;

/// `std::str::from_utf8`: the text that the bytes encode, where they are
/// UTF-8.
#[verifier::external_body]
fn utf8_text(data: &Vec<u8>) -> (r: Option<String>)
    ensures
        r is Some <==> valid_utf8(data@),
        r matches Some(s) ==> s@ == decode_utf8(data@),
{
    std::str::from_utf8(data.as_slice()).ok().map(|s| s.to_string())
}

/// `quickxml_to_serde::xml_string_to_json` with the configuration of the
/// metadata stream, its `serde_json` tree carried over node for node.
#[verifier::external_body]
fn xml_to_json(xml: &String) -> (r: Option<JsonValue>)
    ensures
        r == metadata_json_of(xml@),
{
    let conf = quickxml_to_serde::Config::new_with_custom_values(
        true,
        "",
        "txt",
        quickxml_to_serde::NullValue::Null,
    );
    quickxml_to_serde::xml_string_to_json(xml.clone(), &conf).ok().map(|v| json_from_serde(&v))
}

/// The JSON tree of `serde_json`, carried through opaquely.
#[verifier::external_type_specification]
#[verifier::external_body]
pub struct ExSerdeJsonValue(serde_json::Value);

/// One `serde_json` node as the library's JSON node: a number as the text
/// `serde_json` prints for it, members in the map's order.
#[verifier::external_body]
fn json_from_serde(v: &serde_json::Value) -> JsonValue {
    match v {
        serde_json::Value::Null => JsonValue::Null,
        serde_json::Value::Bool(b) => JsonValue::Bool(*b),
        serde_json::Value::Number(n) => JsonValue::Number(n.to_string()),
        serde_json::Value::String(s) => JsonValue::Str(s.clone()),
        serde_json::Value::Array(a) => JsonValue::Array(a.iter().map(json_from_serde).collect()),
        serde_json::Value::Object(m) => JsonValue::Object(
            m.iter().map(|(k, x)| JsonMember { key: k.clone(), value: json_from_serde(x) }).collect(),
        ),
    }
}

/// The JSON of one metadata message: its bytes read as UTF-8, then its XML
/// turned into JSON.
pub fn decode_message(data: &Vec<u8>) -> (r: Result<JsonValue, DecodeError>)
    ensures
        !valid_utf8(data@) ==> r matches Err(DecodeError::NotUtf8),
        valid_utf8(data@) ==> match metadata_json_of(decode_utf8(data@)) {
            Some(j) => r == Ok::<JsonValue, DecodeError>(j),
            None => r matches Err(DecodeError::NotXml),
        },
{
    match utf8_text(data) {
        None => Err(DecodeError::NotUtf8),
        Some(text) => match xml_to_json(&text) {
            Some(j) => Ok(j),
            None => Err(DecodeError::NotXml),
        },
    }
}


/// Whether `t` names the literal `lit`.
fn names(t: &String, lit: &str) -> (r: bool)
    ensures
        r == seq_contains(t@, lit@),
{
    let c = chars_of(t.as_str());
    let p = chars_of(lit);
    contains_chars(&c, &p)
}

impl MetadataConfig {
    /// The family of the camera, read from its model text.
    pub fn camera_model(&self) -> (m: CameraModel)
        ensures
            m == model_of(self.ai_cam_model@),
    {
        if names(&self.ai_cam_model, "hanwha") {
            CameraModel::Hanwha
        } else if names(&self.ai_cam_model, "truen") {
            CameraModel::Truen
        } else {
            CameraModel::Other
        }
    }

    /// The RTSP address at which the camera's metadata stream is opened.
    pub fn rtsp_url(&self) -> (url: String)
        ensures
            url@ == rtsp_url_of(*self),
    {
        match self.camera_model() {
            CameraModel::Hanwha => {
                let mut url = String::from_str("rtsp://");
                url.append(self.camera_ip.as_str());
                url.append(":");
                url.append(self.rtsp_port.as_str());
                url.append("/profile1/media.smp");
                url
            },
            CameraModel::Truen => {
                let mut url = String::from_str("rtsp://");
                url.append(self.camera_ip.as_str());
                url.append(":");
                url.append(self.rtsp_port.as_str());
                url.append("/video1");
                url
            },
            CameraModel::Other => String::new(),
        }
    }

    /// Whether the camera's stream is to be read at all: a camera with an
    /// empty model text is left alone.
    pub fn is_enabled(&self) -> (r: bool)
        ensures
            r == (self.ai_cam_model@.len() > 0),
    {
        chars_of(self.ai_cam_model.as_str()).len() > 0
    }

    /// The processing of one metadata message `j` of this camera: a Hanwha
    /// frame or a Truen frame by the camera's family (blank metadata for any
    /// other), the metadata stamped with the facility. `None` where the frame
    /// is not accepted: its time does not read as a date, or, for Truen,
    /// `file_ids` does not name one image file per object. `date` is the day
    /// that a Truen best shot is filed under.
    pub fn process_message(&self, j: &JsonValue, date: i64, file_ids: &Vec<String>) -> (r: Option<
        MessageOutcome,
    >)
        ensures
            r matches Some(out) ==> out.metadata.fcltId@ == self.fclt_id@,
            match model_of(self.ai_cam_model@) {
                CameraModel::Hanwha => {
                    &&& r is Some <==> frame_time_ok(*j, "MetadataStream"@)
                    &&& r matches Some(out) ==> hanwha::frame_processed(
                        *j,
                        self.fclt_id@,
                        self.camera_ip@,
                        self.http_port@,
                        out.metadata,
                        out.bestshots@,
                    )
                },
                CameraModel::Truen => {
                    &&& r is Some <==> (frame_time_ok(*j, "MetaDataStream"@) && file_ids@.len()
                        == truen::objects_of(*j).len())
                    &&& r matches Some(out) ==> truen::frame_processed(
                        *j,
                        self.fclt_id@,
                        self.camera_ip@,
                        self.http_port@,
                        date,
                        file_ids@,
                        out.metadata,
                        out.bestshots@,
                    )
                },
                CameraModel::Other => r matches Some(out) && out.metadata.is_blank_but_facility()
                    && out.bestshots@.len() == 0,
            },
    {
        let (mut metadata, bestshots) = match self.camera_model() {
            CameraModel::Hanwha => match hanwha::try_proc(j, &self.fclt_id, &self.camera_ip, &self.http_port) {
                Some(out) => (out.metadata, out.bestshots),
                None => return None,
            },
            CameraModel::Truen => match truen::try_proc(
                j,
                &self.fclt_id,
                &self.camera_ip,
                &self.http_port,
                date,
                file_ids,
            ) {
                Some(out) => (out.metadata, out.bestshots),
                None => return None,
            },
            CameraModel::Other => (Metadata::new(), Vec::new()),
        };
        metadata.fcltId = self.fclt_id.clone();
        Some(MessageOutcome { metadata, bestshots })
    }
}

} // verus!
