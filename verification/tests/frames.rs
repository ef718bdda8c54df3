use onvif_metadata::hanwha;
use onvif_metadata::json::{JsonMember, JsonValue};
use onvif_metadata::server_metadata::{decode_message, CameraModel, DecodeError, MetadataConfig};
use onvif_metadata::truen;

fn s(t: &str) -> JsonValue {
    JsonValue::Str(t.to_string())
}

fn obj(members: Vec<(&str, JsonValue)>) -> JsonValue {
    JsonValue::Object(
        members
            .into_iter()
            .map(|(k, v)| JsonMember { key: k.to_string(), value: v })
            .collect(),
    )
}

fn frame(stream: &str, time: JsonValue, objects: JsonValue) -> JsonValue {
    obj(vec![(
        stream,
        obj(vec![("VideoAnalytics", obj(vec![("Frame", obj(vec![("UtcTime", time), ("Object", objects)]))]))]),
    )])
}

fn object(id: &str, class: &str, image: Option<&str>) -> JsonValue {
    let mut app = vec![("Class", obj(vec![("Type", obj(vec![("txt", s(class))]))]))];
    if let Some(r) = image {
        app.push(("ImageRef", s(r)));
    }
    obj(vec![("ObjectId", s(id)), ("Appearance", obj(app))])
}

fn config(model: &str) -> MetadataConfig {
    MetadataConfig {
        camera_ip: "10.0.0.5".to_string(),
        http_port: "8080".to_string(),
        rtsp_port: "554".to_string(),
        username: "admin".to_string(),
        password: "pw".to_string(),
        img_save_path: "./img".to_string(),
        fclt_id: "F1".to_string(),
        ai_cam_model: model.to_string(),
        face_recognition_url: "".to_string(),
    }
}

const TIME: &str = "2023-02-10T01:02:03.456Z";

#[test]
fn hanwha_frame_reports_last_object() {
    let j = frame(
        "MetadataStream",
        s(TIME),
        JsonValue::Array(vec![object("1", "Vehicle", Some("/img/1.jpg")), object("2", "LicensePlate", None)]),
    );
    let out = hanwha::proc(&j, &"F1".to_string(), &"10.0.0.5".to_string(), &"80".to_string());
    assert_eq!(out.metadata.detectType, 3);
    assert_eq!(out.bestshots.len(), 2);
    let b = out.bestshots[0].as_ref().unwrap();
    assert_eq!(b.image_ref, "/img/1.jpg");
    assert_eq!(b.object_id, "\"1\"");
    assert_eq!(b.class, "Vehicle");
    assert_eq!(b.utc_time, TIME);
    assert_eq!(b.fclt_id, "F1");
    assert_eq!(b.camera_ip, "10.0.0.5");
    assert_eq!(b.http_port, "80");
    assert!(out.bestshots[1].is_none());
}

#[test]
fn hanwha_single_object_and_no_time() {
    let single = frame("MetadataStream", s(TIME), object("9", "Human", None));
    let out = hanwha::proc(&single, &"F".to_string(), &"ip".to_string(), &"80".to_string());
    assert_eq!(out.metadata.detectType, 0);
    assert_eq!(out.bestshots.len(), 1);
    let untimed = obj(vec![("MetadataStream", obj(vec![]))]);
    let out = hanwha::proc(&untimed, &"F".to_string(), &"ip".to_string(), &"80".to_string());
    assert_eq!(out.metadata.detectType, -1);
    assert!(out.bestshots.is_empty());
    assert_eq!(hanwha::frame_objects(&untimed).len(), 0);
    let empty = frame("MetadataStream", s(TIME), JsonValue::Null);
    assert_eq!(hanwha::frame_objects(&empty).len(), 0);
}

#[test]
fn hanwha_frame_with_unreadable_time_is_refused() {
    let j = frame("MetadataStream", s("yesterday"), object("1", "Human", None));
    assert!(hanwha::try_proc(&j, &"F".to_string(), &"ip".to_string(), &"80".to_string()).is_none());
    let k = frame("MetadataStream", s(TIME), object("1", "Human", None));
    assert!(hanwha::try_proc(&k, &"F".to_string(), &"ip".to_string(), &"80".to_string()).is_some());
}

#[test]
fn truen_frame_swaps_facility_and_time() {
    let j = frame(
        "MetaDataStream",
        s(TIME),
        JsonValue::Array(vec![object("1", "Human", Some("http://cam/a.jpg")), object("2", "Face", None)]),
    );
    assert_eq!(truen::object_count(&j), 2);
    let ids = vec!["u1".to_string(), "u2".to_string()];
    let out = truen::proc(&j, &"F1".to_string(), &"ip".to_string(), &"80".to_string(), 20230210, &ids);
    assert_eq!(out.metadata.detectType, -1);
    assert_eq!(out.metadata.fcltId, "");
    let b = out.bestshots[0].as_ref().unwrap();
    assert_eq!(b.fclt_id, TIME);
    assert_eq!(b.utc_time, "F1");
    assert_eq!(b.file_name, "u1.jpg");
    assert_eq!(b.date, 20230210);
    assert_eq!(b.image_ref, "http://cam/a.jpg");
    assert!(out.bestshots[1].is_none());
    assert!(truen::try_proc(&j, &"F1".to_string(), &"ip".to_string(), &"80".to_string(), 0, &vec![]).is_none());
}

#[test]
fn message_dispatch_by_camera_model() {
    let j = frame("MetadataStream", s(TIME), object("1", "Vehicle", None));
    let out = config("hanwha-xnv").process_message(&j, 0, &vec![]).unwrap();
    assert_eq!(out.metadata.detectType, 1);
    assert_eq!(out.metadata.fcltId, "F1");
    let other = config("axis").process_message(&j, 0, &vec![]).unwrap();
    assert_eq!(other.metadata.detectType, -1);
    assert_eq!(other.metadata.fcltId, "F1");
    assert!(other.bestshots.is_empty());
    assert!(matches!(config("truen").camera_model(), CameraModel::Truen));
    assert!(config("truen").process_message(&j, 0, &vec![]).is_some());
}

#[test]
fn rtsp_addresses() {
    assert_eq!(config("hanwha").rtsp_url(), "rtsp://10.0.0.5:554/profile1/media.smp");
    assert_eq!(config("truen").rtsp_url(), "rtsp://10.0.0.5:554/video1");
    assert_eq!(config("other").rtsp_url(), "");
    assert!(config("x").is_enabled());
    assert!(!config("").is_enabled());
}

#[test]
fn decode_xml_message() {
    let xml = r#"<tt:MetadataStream xmlns:tt="http://www.onvif.org/ver10/schema"><tt:VideoAnalytics><tt:Frame UtcTime="2023-02-10T01:02:03.456Z"><tt:Object ObjectId="5"><tt:Appearance><tt:Class><tt:Type Likelihood="0.8">Human</tt:Type></tt:Class></tt:Appearance></tt:Object></tt:Frame></tt:VideoAnalytics></tt:MetadataStream>"#;
    let j = match decode_message(&xml.as_bytes().to_vec()) {
        Ok(j) => j,
        Err(_) => panic!("the message should decode"),
    };
    let out = hanwha::proc(&j, &"F".to_string(), &"ip".to_string(), &"80".to_string());
    assert_eq!(out.metadata.detectType, 0);
    assert!(matches!(decode_message(&vec![0xff, 0xfe]), Err(DecodeError::NotUtf8)));
    assert!(matches!(decode_message(&b"<a><b></a>".to_vec()), Err(DecodeError::NotXml)));
}

#[test]
fn json_text_agrees_with_serde_json() {
    let xml = r#"<tt:MetadataStream xmlns:tt="http://www.onvif.org/ver10/schema"><tt:VideoAnalytics><tt:Frame UtcTime="2023-02-10T01:02:03.456Z"><tt:Transformation><tt:Translate x="-1.0" y="0.5"/></tt:Transformation><tt:Object ObjectId="5"><tt:Appearance><tt:Shape><tt:BoundingBox left="10" top="20.25" right="30" bottom="007"/></tt:Shape><tt:Class><tt:Type Likelihood="0.8">Human</tt:Type></tt:Class><tt:Clothing><tt:Hat><tt:Wear>true</tt:Wear></tt:Hat></tt:Clothing><tt:ImageRef>/img?a=1&amp;b="q"</tt:ImageRef></tt:Appearance></tt:Object><tt:Object ObjectId="6"><tt:Appearance><tt:Class><tt:Type>Vehicle</tt:Type></tt:Class></tt:Appearance></tt:Object></tt:Frame></tt:VideoAnalytics></tt:MetadataStream>"#;
    let conf = quickxml_to_serde::Config::new_with_custom_values(true, "", "txt", quickxml_to_serde::NullValue::Null);
    let expected = quickxml_to_serde::xml_string_to_json(xml.to_string(), &conf).unwrap().to_string();
    let j = match decode_message(&xml.as_bytes().to_vec()) {
        Ok(j) => j,
        Err(_) => panic!("the message should decode"),
    };
    let ours: String = j.text().into_iter().collect();
    assert_eq!(ours, expected);
    let out = hanwha::proc(&j, &"F".to_string(), &"ip".to_string(), &"80".to_string());
    assert_eq!(out.bestshots.len(), 2);
    // the last object's `Type` has no attribute, so it is a bare string and
    // `Type.txt` is null: its class is unknown
    assert_eq!(out.metadata.detectType, -1);
    let b = out.bestshots[0].as_ref().unwrap();
    assert_eq!(b.image_ref, "/img?a=1&b=\\q\\");
    assert_eq!(b.object_id, "5");
    assert_eq!(b.class, "Human");
}

#[test]
fn unreadable_time_refuses_the_message() {
    let j = frame("MetadataStream", s("not a time"), object("1", "Human", None));
    assert!(config("hanwha").process_message(&j, 0, &vec![]).is_none());
    let t = frame("MetaDataStream", s("not a time"), object("1", "Human", None));
    assert!(truen::try_proc(&t, &"F".to_string(), &"ip".to_string(), &"80".to_string(), 0, &vec!["u".to_string()]).is_none());
    let ok = frame("MetaDataStream", s(TIME), object("1", "Human", None));
    assert!(truen::try_proc(&ok, &"F".to_string(), &"ip".to_string(), &"80".to_string(), 0, &vec!["u".to_string()]).is_some());
    let untimed = frame("MetaDataStream", JsonValue::Null, object("1", "Human", None));
    assert_eq!(truen::object_count(&untimed), 0);
}
