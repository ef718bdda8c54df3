use onvif_metadata::bestshot::image_location;
use onvif_metadata::edge;
use onvif_metadata::facerecognition::create_face_url;
use onvif_metadata::fclt::{fclt_data, fclt_datas, FcltModel, FcltTypeData};
use onvif_metadata::hanwha;
use onvif_metadata::json::{JsonMember, JsonValue};
use onvif_metadata::registry::Registry;
use onvif_metadata::server::{health_check_response, health_check_response2, metadata_config_for, GenericResponse};
use onvif_metadata::truen;

fn entry(key: &str, value: &str) -> FcltTypeData {
    FcltTypeData { data_key: key.to_string(), label: key.to_string(), value: value.to_string() }
}

fn obj(members: Vec<(&str, JsonValue)>) -> JsonValue {
    JsonValue::Object(
        members
            .into_iter()
            .map(|(k, v)| JsonMember { key: k.to_string(), value: v })
            .collect(),
    )
}

#[test]
fn facility_settings_are_read_from_typed_data() {
    let m = FcltModel {
        fclt_id: "F1".to_string(),
        fclt_name: "North gate".to_string(),
        fclt_type_data: vec![
            entry("cameraIp", "\"10.0.0.9\""),
            entry("rtspPort", "554"),
            entry("cameraId", "\"admin\""),
            entry("cameraPass", "\"secret\""),
            entry("aiCamModel", "\"hanwha\""),
            entry("cameraIp", "\"10.0.0.10\""),
            entry("unrelated", "\"x\""),
        ],
    };
    let d = fclt_data(&m);
    assert_eq!(d.fclt_id, "F1");
    assert_eq!(d.fclt_name, "North gate");
    assert_eq!(d.camera_ip, "10.0.0.10");
    assert_eq!(d.rtsp_port, "554");
    assert_eq!(d.camera_id, "admin");
    assert_eq!(d.camera_pass, "secret");
    assert_eq!(d.ai_cam_model, "hanwha");
    assert_eq!(d.http_port, "80");
    let ds = fclt_datas(&vec![m, FcltModel { fclt_id: "F2".to_string(), fclt_name: "".to_string(), fclt_type_data: vec![entry("httpPort", "8080")] }]);
    assert_eq!(ds.len(), 2);
    assert_eq!(ds[1].http_port, "8080");
    assert_eq!(ds[1].camera_ip, "");
}

#[test]
fn registry_replaces_and_removes() {
    let mut r: Registry<u32> = Registry::new();
    assert_eq!(r.insert("a".to_string(), 1), None);
    assert_eq!(r.insert("b".to_string(), 2), None);
    assert_eq!(r.insert("a".to_string(), 3), Some(1));
    assert_eq!(r.get(&"a".to_string()), Some(&3));
    assert_eq!(r.get(&"b".to_string()), Some(&2));
    assert!(r.contains_key(&"b".to_string()));
    assert_eq!(r.remove(&"b".to_string()), Some(2));
    assert!(!r.contains_key(&"b".to_string()));
    assert_eq!(r.get(&"c".to_string()), None);
}

#[test]
fn edge_image_address() {
    let j = obj(vec![(
        "MetaDataStream",
        obj(vec![(
            "VideoAnalytics",
            obj(vec![(
                "Frame",
                obj(vec![(
                    "Object",
                    obj(vec![(
                        "Appearance",
                        obj(vec![("ImageRef", JsonValue::Str("http://172.30.1.11/snap.jpg".to_string()))]),
                    )]),
                )]),
            )]),
        )]),
    )]);
    assert_eq!(edge::image_url(&j), Some("http://southdoor2.truecam.net/snap.jpg".to_string()));
    assert_eq!(edge::image_url(&JsonValue::Null), None);
    assert_eq!(edge::image_file_name(&"./img".to_string(), &"abc".to_string()), "./img/abc.jpg");
}

#[test]
fn service_addresses_and_answers() {
    assert_eq!(create_face_url(&"http://luna:5000".to_string()), "http://luna:5000/lunaApi/createFace");
    let (dir, file) = image_location(&"./img".to_string(), &"10.0.0.5".to_string(), &"u".to_string());
    assert_eq!(dir, "./img/10.0.0.5");
    assert_eq!(file, "./img/10.0.0.5/u.jpg");
    let p = hanwha::bestshot_download(&"/data".to_string(), &"1.2.3.4".to_string(), &"80".to_string(), &"/a.jpg".to_string(), &"u".to_string());
    assert_eq!(p.url, "http://1.2.3.4:80/a.jpg");
    assert_eq!(p.file_name, "/data/1.2.3.4/u.jpg");
    let q = truen::bestshot_download(&"/data".to_string(), &"1.2.3.4".to_string(), &"http://x/a.jpg".to_string(), &"u".to_string());
    assert_eq!(q.url, "http://x/a.jpg");
    assert_eq!(q.dir, "/data/1.2.3.4");
    let r = health_check_response();
    assert_eq!(r.status, "success");
    assert_eq!(r.message, "Build Simple CRUD API with Rust and Actix Web");
    assert_eq!(health_check_response2().message, "test2");
    assert_eq!(GenericResponse::success("ok").status, "success");
}

#[test]
fn config_defaults() {
    let m = FcltModel { fclt_id: "F".to_string(), fclt_name: "n".to_string(), fclt_type_data: vec![entry("cameraId", "u"), entry("cameraPass", "p")] };
    let d = fclt_data(&m);
    let c = metadata_config_for(&d, None, None);
    assert_eq!(c.img_save_path, "./");
    assert_eq!(c.face_recognition_url, "");
    assert_eq!(c.username, "u");
    assert_eq!(c.password, "p");
    assert_eq!(c.http_port, "80");
    let c2 = metadata_config_for(&d, Some("/x".to_string()), Some("http://f".to_string()));
    assert_eq!(c2.img_save_path, "/x");
    assert_eq!(c2.face_recognition_url, "http://f");
}

#[test]
fn registry_remove_of_missing_key() {
    let mut r: Registry<String> = Registry::new();
    assert_eq!(r.remove(&"x".to_string()), None);
    r.insert("x".to_string(), "one".to_string());
    assert_eq!(r.remove(&"x".to_string()), Some("one".to_string()));
    assert_eq!(r.get(&"x".to_string()), None);
}
