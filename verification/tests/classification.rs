use onvif_metadata::hanwha;
use onvif_metadata::json::{JsonMember, JsonValue};
use onvif_metadata::metadata::Metadata;

fn s(t: &str) -> JsonValue {
    JsonValue::Str(t.to_string())
}

fn num(t: &str) -> JsonValue {
    JsonValue::Number(t.to_string())
}

fn obj(members: Vec<(&str, JsonValue)>) -> JsonValue {
    JsonValue::Object(
        members
            .into_iter()
            .map(|(k, v)| JsonMember { key: k.to_string(), value: v })
            .collect(),
    )
}

fn class(t: &str) -> JsonValue {
    obj(vec![("Type", obj(vec![("Likelihood", num("0.9")), ("txt", s(t))]))])
}

fn text(v: &JsonValue) -> String {
    v.text().into_iter().collect()
}

#[test]
fn new_metadata_is_blank() {
    let m = Metadata::new();
    assert_eq!(m.faceId, "");
    assert_eq!(m.fcltId, "");
    assert_eq!(m.rect.top, 0);
    assert_eq!(m.rect.translate.y, 0);
    assert_eq!(m.class.class_type, "");
    assert_eq!(m.currentTime, 0);
    assert_eq!(m.detectType, -1);
    assert_eq!(m.genderType, -1);
    assert_eq!(m.faceGenderType, -1);
    assert_eq!(m.vehicleType, -1);
    assert!(m.topColor.is_empty() && m.bottomColor.is_empty() && m.vehicleColor.is_empty());
}

#[test]
fn json_text_matches_compact_json() {
    assert_eq!(text(&JsonValue::Null), "null");
    assert_eq!(text(&JsonValue::Bool(true)), "true");
    assert_eq!(text(&num("0.25")), "0.25");
    assert_eq!(text(&s("say \"hi\"\n")), "\"say \\\"hi\\\"\\n\"");
    let v = obj(vec![("a", JsonValue::Array(vec![num("1"), s("x")])), ("b", obj(vec![]))]);
    assert_eq!(text(&v), "{\"a\":[1,\"x\"],\"b\":{}}");
}

#[test]
fn json_text_escapes_control_characters() {
    assert_eq!(text(&s("a\\b")), "\"a\\\\b\"");
    assert_eq!(text(&s("\t\r\u{8}\u{c}")), "\"\\t\\r\\b\\f\"");
    assert_eq!(text(&s("\u{1}\u{1f}")), "\"\\u0001\\u001f\"");
    assert_eq!(text(&s("caf\u{e9} \u{7f}")), "\"caf\u{e9} \u{7f}\"");
}

#[test]
fn face_with_female_gender_reads_as_male() {
    let o = obj(vec![
        ("ObjectId", num("7")),
        (
            "Appearance",
            obj(vec![
                ("Class", class("Face")),
                (
                    "HumanFace",
                    obj(vec![("Gender", s("Female")), ("AgeType", s("Senior"))]),
                ),
                (
                    "Accessory",
                    obj(vec![
                        ("Hat", obj(vec![("Wear", JsonValue::Bool(true))])),
                        ("Mask", obj(vec![("Wear", JsonValue::Bool(false))])),
                    ]),
                ),
            ]),
        ),
    ]);
    let m = hanwha::classify(&o);
    assert_eq!(m.detectType, 2);
    assert_eq!(m.faceGenderType, 0);
    assert_eq!(m.ageType, 3);
    assert_eq!(m.hat, 1);
    assert_eq!(m.mask, 0);
    assert_eq!(m.opticals, -1);
    assert_eq!(m.genderType, -1);
}

#[test]
fn face_without_human_face_keeps_attributes_unknown() {
    let o = obj(vec![("Appearance", obj(vec![("Class", class("Head"))]))]);
    let m = hanwha::classify(&o);
    assert_eq!(m.detectType, 2);
    assert_eq!(m.faceGenderType, -1);
    assert_eq!(m.hat, -1);
}

#[test]
fn person_attributes_and_colours() {
    let cluster = JsonValue::Array(vec![obj(vec![("ColorString", s("Black"))])]);
    let o = obj(vec![(
        "Appearance",
        obj(vec![
            ("Class", class("Human")),
            ("HumanBody", obj(vec![("Gender", s("MALE"))])),
            (
                "Clothing",
                obj(vec![
                    ("Hat", obj(vec![("Wear", JsonValue::Bool(false))])),
                    (
                        "Tops",
                        obj(vec![("Length", s("Long")), ("Color", obj(vec![("ColorCluster", cluster)]))]),
                    ),
                    ("Bottoms", obj(vec![("Length", s("Short"))])),
                ]),
            ),
            ("Belonging", obj(vec![("Bag", obj(vec![("Category", s("Handbag"))]))])),
        ]),
    )]);
    let m = hanwha::classify(&o);
    assert_eq!(m.detectType, 0);
    assert_eq!(m.genderType, 0);
    assert_eq!(m.hatDetection, 0);
    assert_eq!(m.topLength, 1);
    assert_eq!(m.bottomLength, 0);
    assert_eq!(m.bagDetection, 1);
    assert!(m.topColor.is_empty());
    assert!(m.bottomColor.is_empty());
    assert_eq!(m.faceGenderType, -1);
}

#[test]
fn bag_category_is_compared_as_written() {
    let o = obj(vec![(
        "Appearance",
        obj(vec![
            ("Class", class("Human")),
            ("Belonging", obj(vec![("Bag", obj(vec![("Category", s("Bag"))]))])),
        ]),
    )]);
    assert_eq!(hanwha::classify(&o).bagDetection, 0);
}

#[test]
fn vehicle_type_codes() {
    let make = |t: &str| {
        obj(vec![(
            "Appearance",
            obj(vec![("Class", class("Vehicle")), ("VehicleInfo", obj(vec![("Type", s(t))]))]),
        )])
    };
    assert_eq!(hanwha::classify(&make("Car")).vehicleType, 1);
    assert_eq!(hanwha::classify(&make("Bus")).vehicleType, 2);
    assert_eq!(hanwha::classify(&make("Truck")).vehicleType, 3);
    assert_eq!(hanwha::classify(&make("Motocycle")).vehicleType, 4);
    assert_eq!(hanwha::classify(&make("Bicycle")).vehicleType, 5);
    assert_eq!(hanwha::classify(&make("Boat")).vehicleType, -1);
    assert_eq!(hanwha::classify(&make("Car")).detectType, 1);
}

#[test]
fn licence_plate_and_unknown_classes() {
    let plate = obj(vec![("Appearance", obj(vec![("Class", class("LicensePlate"))]))]);
    assert_eq!(hanwha::classify(&plate).detectType, 3);
    let other = obj(vec![("Appearance", obj(vec![("Class", class("Animal"))]))]);
    assert_eq!(hanwha::classify(&other).detectType, -1);
    assert_eq!(hanwha::classify(&JsonValue::Null).detectType, -1);
}
