use vstd::prelude::*;

use crate::bestshot::{image_location, Bestshot, DownloadPlan};
use crate::json::{
    child, json_get, json_index, json_plain, json_quoted_of, json_text, lemma_contains_quoted,
    lemma_escaped_plain, or_null, text_or_null, JsonValue,
};
use crate::frame::{
    at2, at3, frame_objects_under, frame_time, frame_time_ok, frame_time_text, objects_under_of,
    parse_utc_time,
};
use crate::metadata::Metadata;
use crate::text::{
    all_ascii, ascii_lower, chars_equal_lit, chars_of, contains_chars, lowercase_of, remove_quotes, seq_contains, string_of,
    to_lowercase, without_quotes,
};

verus! {

// ---------------------------------------------------------------------------
// What the classification reads of one detected object

/// The `Appearance` member of a detected object.
pub open spec fn appearance(o: JsonValue) -> JsonValue {
    json_index(o, "Appearance"@)
}

/// The JSON text of `Appearance.Class.Type.txt`: the object's class as the
/// camera names it.
pub open spec fn class_text(o: JsonValue) -> Seq<char> {
    json_text(at3(appearance(o), "Class"@, "Type"@, "txt"@))
}

/// The lower-cased JSON text of a value.
pub open spec fn lower_text(v: JsonValue) -> Seq<char> {
    lowercase_of(json_text(v))
}

/// The class names a face or a head.
pub open spec fn is_face_class(c: Seq<char>) -> bool {
    seq_contains(c, "Face"@) || seq_contains(c, "Head"@)
}

/// The class names a person (and no face).
pub open spec fn is_human_class(c: Seq<char>) -> bool {
    !is_face_class(c) && seq_contains(c, "Human"@)
}

/// The class names a vehicle (and no face or person).
pub open spec fn is_vehicle_class(c: Seq<char>) -> bool {
    !is_face_class(c) && !seq_contains(c, "Human"@) && seq_contains(c, "Vehicle"@)
}

/// The detection code of a class: face 2, person 0, vehicle 1, licence
/// plate 3, anything else -1; the first that the class text names wins.
pub open spec fn detect_type_of(c: Seq<char>) -> i32 {
    if is_face_class(c) {
        2
    } else if seq_contains(c, "Human"@) {
        0
    } else if seq_contains(c, "Vehicle"@) {
        1
    } else if seq_contains(c, "LicensePlate"@) {
        3
    } else {
        -1i32
    }
}

/// A class name with no character that JSON escapes gets, read as the JSON
/// text of its string, the detection code of the name itself.
pub proof fn lemma_detect_type_of_quoted(c: Seq<char>)
    requires
        json_plain(c),
    ensures
        detect_type_of(json_quoted_of(c)) == detect_type_of(c),
{
    reveal_strlit("Face");
    reveal_strlit("Head");
    reveal_strlit("Human");
    reveal_strlit("Vehicle");
    reveal_strlit("LicensePlate");
    lemma_escaped_plain(c);
    lemma_contains_quoted(c, "Face"@);
    lemma_contains_quoted(c, "Head"@);
    lemma_contains_quoted(c, "Human"@);
    lemma_contains_quoted(c, "Vehicle"@);
    lemma_contains_quoted(c, "LicensePlate"@);
}

/// 0 where `t` names `a`, else 1 where it names `b`, else -1.
pub open spec fn pair_code(t: Seq<char>, a: Seq<char>, b: Seq<char>) -> i32 {
    if seq_contains(t, a) {
        0
    } else if seq_contains(t, b) {
        1
    } else {
        -1i32
    }
}

/// 1 where `t` says `true`, else 0 where it says `false`, else -1.
pub open spec fn wear_code(t: Seq<char>) -> i32 {
    if seq_contains(t, "true"@) {
        1
    } else if seq_contains(t, "false"@) {
        0
    } else {
        -1i32
    }
}

/// The age code: young 0, adult 1, middle 2, senior 3, else -1.
pub open spec fn age_code(t: Seq<char>) -> i32 {
    if seq_contains(t, "young"@) {
        0
    } else if seq_contains(t, "adult"@) {
        1
    } else if seq_contains(t, "middle"@) {
        2
    } else if seq_contains(t, "senior"@) {
        3
    } else {
        -1i32
    }
}

/// The vehicle code: car 1, bus 2, truck 3, motocycle 4, bicycle 5, else -1.
pub open spec fn vehicle_code(t: Seq<char>) -> i32 {
    if seq_contains(t, "car"@) {
        1
    } else if seq_contains(t, "bus"@) {
        2
    } else if seq_contains(t, "truck"@) {
        3
    } else if seq_contains(t, "motocycle"@) {
        4
    } else if seq_contains(t, "bicycle"@) {
        5
    } else {
        -1i32
    }
}

/// The colour code that a colour text names: black 1, gray 2, white 3, red 4,
/// orange 5, yellow 6, green 7, blue 8, purple 9; the first that it names.
pub open spec fn colour_code(t: Seq<char>) -> Option<u32> {
    if seq_contains(t, "black"@) {
        Some(1)
    } else if seq_contains(t, "gray"@) {
        Some(2)
    } else if seq_contains(t, "white"@) {
        Some(3)
    } else if seq_contains(t, "red"@) {
        Some(4)
    } else if seq_contains(t, "orange"@) {
        Some(5)
    } else if seq_contains(t, "yellow"@) {
        Some(6)
    } else if seq_contains(t, "green"@) {
        Some(7)
    } else if seq_contains(t, "blue"@) {
        Some(8)
    } else if seq_contains(t, "purple"@) {
        Some(9)
    } else {
        None
    }
}

/// The object carries the member `k` under `Appearance`.
pub open spec fn appears(o: JsonValue, k: Seq<char>) -> bool {
    json_get(appearance(o), k) is Some
}

/// A face attribute: read where the object is a face with a `HumanFace`
/// member, -1 otherwise.
pub open spec fn face_attr(o: JsonValue, code: i32) -> i32 {
    if is_face_class(class_text(o)) && appears(o, "HumanFace"@) {
        code
    } else {
        -1i32
    }
}

/// The face gender code (`Appearance.HumanFace.Gender`).
pub open spec fn face_gender_of(o: JsonValue) -> i32 {
    face_attr(
        o,
        pair_code(lower_text(at2(appearance(o), "HumanFace"@, "Gender"@)), "male"@, "female"@),
    )
}

/// The face age code (`Appearance.HumanFace.AgeType`).
pub open spec fn age_of(o: JsonValue) -> i32 {
    face_attr(o, age_code(lower_text(at2(appearance(o), "HumanFace"@, "AgeType"@))))
}

/// A face accessory code (`Appearance.Accessory.<item>.Wear`).
pub open spec fn accessory_of(o: JsonValue, item: Seq<char>) -> i32 {
    face_attr(o, wear_code(lower_text(at3(appearance(o), "Accessory"@, item, "Wear"@))))
}

/// The body gender code (`Appearance.HumanBody.Gender`) of a person.
pub open spec fn body_gender_of(o: JsonValue) -> i32 {
    if is_human_class(class_text(o)) && appears(o, "HumanBody"@) {
        pair_code(lower_text(at2(appearance(o), "HumanBody"@, "Gender"@)), "male"@, "female"@)
    } else {
        -1i32
    }
}

/// The person wears clothing with the member `k` (`Appearance.Clothing.<k>`).
pub open spec fn has_clothing(o: JsonValue, k: Seq<char>) -> bool {
    is_human_class(class_text(o)) && appears(o, "Clothing"@) && json_get(
        json_index(appearance(o), "Clothing"@),
        k,
    ) is Some
}

/// The hat code of a person: 0 where `Clothing.Hat.Wear` says `false`, else 1
/// where it says `true`, else -1.
pub open spec fn hat_detection_of(o: JsonValue) -> i32 {
    if has_clothing(o, "Hat"@) {
        let t = lower_text(at3(appearance(o), "Clothing"@, "Hat"@, "Wear"@));
        if seq_contains(t, "false"@) {
            0
        } else if seq_contains(t, "true"@) {
            1
        } else {
            -1i32
        }
    } else {
        -1i32
    }
}

/// The length code of a person's `Tops` or `Bottoms`: short 0, long 1.
pub open spec fn length_of(o: JsonValue, part: Seq<char>) -> i32 {
    if has_clothing(o, part) {
        pair_code(lower_text(at3(appearance(o), "Clothing"@, part, "Length"@)), "short"@, "long"@)
    } else {
        -1i32
    }
}

/// The bag code of a person: where there is a `Belonging` member, 1 if
/// `Belonging.Bag.Category` says `bag` (case counts), else 0.
pub open spec fn bag_of(o: JsonValue) -> i32 {
    if is_human_class(class_text(o)) && appears(o, "Belonging"@) {
        if seq_contains(json_text(at3(appearance(o), "Belonging"@, "Bag"@, "Category"@)), "bag"@) {
            1
        } else {
            0
        }
    } else {
        -1i32
    }
}

/// The vehicle type code (`Appearance.VehicleInfo.Type`) of a vehicle.
pub open spec fn vehicle_type_of(o: JsonValue) -> i32 {
    if is_vehicle_class(class_text(o)) {
        vehicle_code(lower_text(at2(appearance(o), "VehicleInfo"@, "Type"@)))
    } else {
        -1i32
    }
}

// ---------------------------------------------------------------------------
// Executable reading

/// Whether the text `t` names `lit`.
fn names(t: &Vec<char>, lit: &str) -> (r: bool)
    ensures
        r == seq_contains(t@, lit@),
{
    let p = chars_of(lit);
    contains_chars(t, &p)
}

/// The lower-cased JSON text of what a lookup found.
fn lower_at(o: Option<&JsonValue>) -> (r: Vec<char>)
    ensures
        r@ == lower_text(or_null(o)),
        all_ascii(json_text(or_null(o))) ==> r@ == json_text(or_null(o)).map_values(
            |c: char| ascii_lower(c),
        ),
{
    let t = text_or_null(o);
    to_lowercase(&t)
}

fn pair_code_exec(t: &Vec<char>, a: &str, b: &str) -> (r: i32)
    ensures
        r == pair_code(t@, a@, b@),
{
    if names(t, a) {
        0
    } else if names(t, b) {
        1
    } else {
        -1i32
    }
}

fn wear_code_exec(t: &Vec<char>) -> (r: i32)
    ensures
        r == wear_code(t@),
{
    if names(t, "true") {
        1
    } else if names(t, "false") {
        0
    } else {
        -1i32
    }
}

fn age_code_exec(t: &Vec<char>) -> (r: i32)
    ensures
        r == age_code(t@),
{
    if names(t, "young") {
        0
    } else if names(t, "adult") {
        1
    } else if names(t, "middle") {
        2
    } else if names(t, "senior") {
        3
    } else {
        -1i32
    }
}

fn vehicle_code_exec(t: &Vec<char>) -> (r: i32)
    ensures
        r == vehicle_code(t@),
{
    if names(t, "car") {
        1
    } else if names(t, "bus") {
        2
    } else if names(t, "truck") {
        3
    } else if names(t, "motocycle") {
        4
    } else if names(t, "bicycle") {
        5
    } else {
        -1i32
    }
}

fn colour_code_exec(t: &Vec<char>) -> (r: Option<u32>)
    ensures
        r == colour_code(t@),
{
    if names(t, "black") {
        Some(1)
    } else if names(t, "gray") {
        Some(2)
    } else if names(t, "white") {
        Some(3)
    } else if names(t, "red") {
        Some(4)
    } else if names(t, "orange") {
        Some(5)
    } else if names(t, "yellow") {
        Some(6)
    } else if names(t, "green") {
        Some(7)
    } else if names(t, "blue") {
        Some(8)
    } else if names(t, "purple") {
        Some(9)
    } else {
        None
    }
}


/// The lower-cased text `null` names no colour.
proof fn lemma_null_names_no_colour(t: Seq<char>)
    requires
        t == "null"@.map_values(|c: char| ascii_lower(c)),
    ensures
        colour_code(t) is None,
{
    reveal_strlit("null");
    assert(t =~= seq!['n', 'u', 'l', 'l']);
    reveal_strlit("black");
    reveal_strlit("gray");
    reveal_strlit("white");
    reveal_strlit("red");
    reveal_strlit("orange");
    reveal_strlit("yellow");
    reveal_strlit("green");
    reveal_strlit("blue");
    reveal_strlit("purple");
    assert forall|i: int| 0 <= i && i + 3 <= t.len() implies #[trigger] t.subrange(i, i + 3) != "red"@ by {
        assert(t.subrange(i, i + 3)[0] == t[i]);
    }
    assert forall|i: int| 0 <= i && i + 4 <= t.len() implies #[trigger] t.subrange(i, i + 4) != "gray"@ && t.subrange(i, i + 4) != "blue"@ by {
        assert(t.subrange(i, i + 4)[0] == t[i]);
    }
}

/// The colour codes that the object's colour loop pushes for one part
/// (`Tops`, `Bottoms` or `VehicleInfo`). Where `Color.ColorCluster` is a
/// list, the loop over `as_array().into_iter()` runs once, on the whole list,
/// and reads `ColorString` of that list, which is `null`: no colour is ever
/// pushed.
fn colour_codes(part: Option<&JsonValue>) -> (r: Vec<u32>)
    ensures
        r@ == Seq::<u32>::empty(),
{
    let mut codes: Vec<u32> = Vec::new();
    let colour = child(part, "Color");
    let cluster = child(colour, "ColorCluster");
    if colour.is_some() && cluster.is_some() {
        match cluster {
            Some(JsonValue::Array(_)) => {
                let colour_json = cluster;
                let t = lower_at(child(colour_json, "ColorString"));
                proof {
                    reveal_strlit("null");
                    assert(all_ascii("null"@));
                    lemma_null_names_no_colour(t@);
                }
                match colour_code_exec(&t) {
                    Some(c) => codes.push(c),
                    None => {},
                }
            },
            _ => {},
        }
    }
    codes
}


/// `m` is what the classification of the object `o` reports: the codes read
/// from the object, no colours, and every other field as `Metadata::new`
/// leaves it.
pub open spec fn classified(m: Metadata, o: JsonValue) -> bool {
    &&& m.fcltId@ == Seq::<char>::empty()
    &&& classified_but_facility(m, o)
}

/// `m` is what the classification of `o` reports, but perhaps for the
/// facility it is stamped with.
pub open spec fn classified_but_facility(m: Metadata, o: JsonValue) -> bool {
    &&& m.faceId@ == Seq::<char>::empty()
    &&& m.rect.is_zero()
    &&& m.class.class_type@ == Seq::<char>::empty()
    &&& m.class.likelihood@ == Seq::<char>::empty()
    &&& m.currentTime == 0
    &&& m.detectType == detect_type_of(class_text(o))
    &&& m.faceGenderType == face_gender_of(o)
    &&& m.ageType == age_of(o)
    &&& m.hat == accessory_of(o, "Hat"@)
    &&& m.mask == accessory_of(o, "Mask"@)
    &&& m.opticals == accessory_of(o, "Opticals"@)
    &&& m.genderType == body_gender_of(o)
    &&& m.hatDetection == hat_detection_of(o)
    &&& m.topLength == length_of(o, "Tops"@)
    &&& m.bottomLength == length_of(o, "Bottoms"@)
    &&& m.bagDetection == bag_of(o)
    &&& m.vehicleType == vehicle_type_of(o)
    &&& m.topColor@ == Seq::<u32>::empty()
    &&& m.bottomColor@ == Seq::<u32>::empty()
    &&& m.vehicleColor@ == Seq::<u32>::empty()
}

/// The face attributes of an object whose class names a face or a head.
fn read_face(m: &mut Metadata, o: &JsonValue)
    requires
        is_face_class(class_text(*o)),
        old(m).faceGenderType == -1 && old(m).ageType == -1,
        old(m).hat == -1 && old(m).mask == -1 && old(m).opticals == -1,
    ensures
        final(m).faceGenderType == face_gender_of(*o),
        final(m).ageType == age_of(*o),
        final(m).hat == accessory_of(*o, "Hat"@),
        final(m).mask == accessory_of(*o, "Mask"@),
        final(m).opticals == accessory_of(*o, "Opticals"@),
        final(m).faceId == old(m).faceId,
        final(m).fcltId == old(m).fcltId,
        final(m).rect == old(m).rect,
        final(m).class == old(m).class,
        final(m).currentTime == old(m).currentTime,
        final(m).detectType == old(m).detectType,
        final(m).genderType == old(m).genderType,
        final(m).hatDetection == old(m).hatDetection,
        final(m).bagDetection == old(m).bagDetection,
        final(m).topLength == old(m).topLength,
        final(m).bottomLength == old(m).bottomLength,
        final(m).topColor == old(m).topColor,
        final(m).bottomColor == old(m).bottomColor,
        final(m).vehicleType == old(m).vehicleType,
        final(m).vehicleColor == old(m).vehicleColor,
{
    let app = child(Some(o), "Appearance");
    let face = child(app, "HumanFace");
    if face.is_some() {
        let gender = lower_at(child(face, "Gender"));
        m.faceGenderType = pair_code_exec(&gender, "male", "female");
        let age = lower_at(child(face, "AgeType"));
        m.ageType = age_code_exec(&age);
        let accessory = child(app, "Accessory");
        let hat = lower_at(child(child(accessory, "Hat"), "Wear"));
        m.hat = wear_code_exec(&hat);
        let mask = lower_at(child(child(accessory, "Mask"), "Wear"));
        m.mask = wear_code_exec(&mask);
        let opticals = lower_at(child(child(accessory, "Opticals"), "Wear"));
        m.opticals = wear_code_exec(&opticals);
    }
}

/// The attributes of an object whose class names a person.
fn read_person(m: &mut Metadata, o: &JsonValue)
    requires
        is_human_class(class_text(*o)),
        old(m).genderType == -1 && old(m).hatDetection == -1 && old(m).bagDetection == -1,
        old(m).topLength == -1 && old(m).bottomLength == -1,
        old(m).topColor@ == Seq::<u32>::empty(),
        old(m).bottomColor@ == Seq::<u32>::empty(),
    ensures
        final(m).genderType == body_gender_of(*o),
        final(m).hatDetection == hat_detection_of(*o),
        final(m).topLength == length_of(*o, "Tops"@),
        final(m).bottomLength == length_of(*o, "Bottoms"@),
        final(m).bagDetection == bag_of(*o),
        final(m).topColor@ == Seq::<u32>::empty(),
        final(m).bottomColor@ == Seq::<u32>::empty(),
        final(m).faceId == old(m).faceId,
        final(m).fcltId == old(m).fcltId,
        final(m).rect == old(m).rect,
        final(m).class == old(m).class,
        final(m).currentTime == old(m).currentTime,
        final(m).detectType == old(m).detectType,
        final(m).faceGenderType == old(m).faceGenderType,
        final(m).ageType == old(m).ageType,
        final(m).hat == old(m).hat,
        final(m).mask == old(m).mask,
        final(m).opticals == old(m).opticals,
        final(m).vehicleType == old(m).vehicleType,
        final(m).vehicleColor == old(m).vehicleColor,
{
    let app = child(Some(o), "Appearance");
    let body = child(app, "HumanBody");
    if body.is_some() {
        let gender = lower_at(child(body, "Gender"));
        m.genderType = pair_code_exec(&gender, "male", "female");
    }
    let clothing = child(app, "Clothing");
    if clothing.is_some() {
        let hat = child(clothing, "Hat");
        if hat.is_some() {
            let wear = lower_at(child(hat, "Wear"));
            if names(&wear, "false") {
                m.hatDetection = 0;
            } else if names(&wear, "true") {
                m.hatDetection = 1;
            }
        }
        let tops = child(clothing, "Tops");
        if tops.is_some() {
            let len = lower_at(child(tops, "Length"));
            m.topLength = pair_code_exec(&len, "short", "long");
        }
        let bottoms = child(clothing, "Bottoms");
        if bottoms.is_some() {
            let len = lower_at(child(bottoms, "Length"));
            m.bottomLength = pair_code_exec(&len, "short", "long");
        }
        let mut top_colours = colour_codes(tops);
        m.topColor.append(&mut top_colours);
        let mut bottom_colours = colour_codes(bottoms);
        m.bottomColor.append(&mut bottom_colours);
    }
    let belonging = child(app, "Belonging");
    if belonging.is_some() {
        let category = text_or_null(child(child(belonging, "Bag"), "Category"));
        if names(&category, "bag") {
            m.bagDetection = 1;
        } else {
            m.bagDetection = 0;
        }
    }
}

/// The attributes of an object whose class names a vehicle.
fn read_vehicle(m: &mut Metadata, o: &JsonValue)
    requires
        is_vehicle_class(class_text(*o)),
        old(m).vehicleType == -1,
        old(m).vehicleColor@ == Seq::<u32>::empty(),
    ensures
        final(m).vehicleType == vehicle_type_of(*o),
        final(m).vehicleColor@ == Seq::<u32>::empty(),
        final(m).faceId == old(m).faceId,
        final(m).fcltId == old(m).fcltId,
        final(m).rect == old(m).rect,
        final(m).class == old(m).class,
        final(m).currentTime == old(m).currentTime,
        final(m).detectType == old(m).detectType,
        final(m).faceGenderType == old(m).faceGenderType,
        final(m).ageType == old(m).ageType,
        final(m).hat == old(m).hat,
        final(m).mask == old(m).mask,
        final(m).opticals == old(m).opticals,
        final(m).genderType == old(m).genderType,
        final(m).hatDetection == old(m).hatDetection,
        final(m).bagDetection == old(m).bagDetection,
        final(m).topLength == old(m).topLength,
        final(m).bottomLength == old(m).bottomLength,
        final(m).topColor == old(m).topColor,
        final(m).bottomColor == old(m).bottomColor,
{
    let app = child(Some(o), "Appearance");
    let info = child(app, "VehicleInfo");
    let kind = lower_at(child(info, "Type"));
    m.vehicleType = vehicle_code_exec(&kind);
    let mut colours = colour_codes(info);
    m.vehicleColor.append(&mut colours);
}

/// The metadata that a Hanwha camera's description of one detected object
/// yields (the rectangle is left at zero; it is read from floating-point
/// members outside this library).
///
/// The class is the text of `Appearance.Class.Type.txt`: a face or head
/// (detect type 2) reads gender, age and the `Hat`, `Mask` and `Opticals`
/// accessories where `HumanFace` is present; a person (0) reads body gender,
/// hat, top and bottom length and bag; a vehicle (1) reads its type; a licence
/// plate is 3. Attribute texts are compared lower-cased, the bag category as
/// it stands.
pub fn classify(o: &JsonValue) -> (m: Metadata)
    ensures
        classified(m, *o),
{
    let mut m = Metadata::new();
    let app = child(Some(o), "Appearance");
    let class = text_or_null(child(child(child(app, "Class"), "Type"), "txt"));
    if names(&class, "Face") || names(&class, "Head") {
        m.detectType = 2;
        read_face(&mut m, o);
    } else if names(&class, "Human") {
        m.detectType = 0;
        read_person(&mut m, o);
    } else if names(&class, "Vehicle") {
        m.detectType = 1;
        read_vehicle(&mut m, o);
    } else if names(&class, "LicensePlate") {
        m.detectType = 3;
    }
    m
}


/// What the processing of one detected object yields: its metadata and, where
/// it carries an image reference, the best-shot record to send for it.
pub struct ObjectOutcome {
    pub metadata: Metadata,
    pub bestshot: Option<Bestshot>,
}

/// What the processing of one metadata frame yields: the metadata of its
/// last object (blank where it has none) and the best-shot record of each
/// object, in frame order.
pub struct FrameOutcome {
    pub metadata: Metadata,
    pub bestshots: Vec<Option<Bestshot>>,
}

/// `b` is the best-shot record of the object `o`: one exactly where
/// `Appearance.ImageRef` is present, holding the reference and the class
/// without double quotes, the JSON text of `ObjectId`, the given facility,
/// camera and time, date 0 and no file name.
pub open spec fn bestshot_of(
    b: Option<Bestshot>,
    o: JsonValue,
    fclt_id: Seq<char>,
    utc_time: Seq<char>,
    camera_ip: Seq<char>,
    http_port: Seq<char>,
) -> bool {
    match json_get(appearance(o), "ImageRef"@) {
        Some(r) => match b {
            Some(x) => {
                &&& x.fclt_id@ == fclt_id
                &&& x.image_ref@ == remove_quotes(json_text(r))
                &&& x.object_id@ == json_text(json_index(o, "ObjectId"@))
                &&& x.camera_ip@ == camera_ip
                &&& x.http_port@ == http_port
                &&& x.utc_time@ == utc_time
                &&& x.class@ == remove_quotes(class_text(o))
                &&& x.date == 0
                &&& x.file_name@ == Seq::<char>::empty()
            },
            None => false,
        },
        None => b is None,
    }
}

/// The processing of one detected object of a Hanwha camera: its metadata
/// and its best-shot record.
pub fn proc_metadata(
    o: &JsonValue,
    fclt_id: &String,
    utc_time: &String,
    camera_ip: &String,
    http_port: &String,
) -> (r: ObjectOutcome)
    ensures
        classified(r.metadata, *o),
        bestshot_of(r.bestshot, *o, fclt_id@, utc_time@, camera_ip@, http_port@),
{
    let metadata = classify(o);
    let app = child(Some(o), "Appearance");
    let image_ref = child(app, "ImageRef");
    let bestshot = match image_ref {
        Some(r) => {
            let class = text_or_null(child(child(child(app, "Class"), "Type"), "txt"));
            let object_id = text_or_null(child(Some(o), "ObjectId"));
            let reference = r.text();
            Some(
                Bestshot {
                    fclt_id: fclt_id.clone(),
                    object_id: string_of(&object_id),
                    camera_ip: camera_ip.clone(),
                    image_ref: string_of(&without_quotes(&reference)),
                    http_port: http_port.clone(),
                    utc_time: utc_time.clone(),
                    class: string_of(&without_quotes(&class)),
                    date: 0,
                    file_name: String::new(),
                },
            )
        },
        None => None,
    };
    ObjectOutcome { metadata, bestshot }
}

// ---------------------------------------------------------------------------
// One metadata frame

/// The frame time: the text of `Frame.UtcTime` without double quotes.
pub open spec fn utc_text(j: JsonValue) -> Seq<char> {
    frame_time_text(j, "MetadataStream"@)
}

/// The frame carries a time (its time text is not `null`).
pub open spec fn has_time(j: JsonValue) -> bool {
    utc_text(j) != "null"@
}

/// The objects of a frame: none without a time; else the elements of
/// `Frame.Object` where it is a list, nothing where it is `null`, and the one
/// object it is otherwise.
pub open spec fn objects_of(j: JsonValue, has_time: bool) -> Seq<JsonValue> {
    objects_under_of(j, "MetadataStream"@, has_time)
}

/// The objects of a Hanwha frame, in the order in which they are processed.
pub fn frame_objects<'a>(j: &'a JsonValue) -> (r: Vec<&'a JsonValue>)
    ensures
        r@.len() == objects_of(*j, has_time(*j)).len(),
        forall|k: int| 0 <= k < r@.len() ==> *r@[k] == objects_of(*j, has_time(*j))[k],
{
    let time = frame_time(j, "MetadataStream");
    let has = !chars_equal_lit(&time, "null");
    frame_objects_under(j, "MetadataStream", has)
}

/// `m` and `bs` are what the processing of the frame `j` yields: the
/// best-shot record of each of its objects, and the metadata of the last of
/// them (blank where there is none), perhaps stamped with a facility.
pub open spec fn frame_processed(
    j: JsonValue,
    fclt_id: Seq<char>,
    camera_ip: Seq<char>,
    http_port: Seq<char>,
    m: Metadata,
    bs: Seq<Option<Bestshot>>,
) -> bool {
    let objs = objects_of(j, has_time(j));
    &&& bs.len() == objs.len()
    &&& forall|k: int|
        0 <= k < objs.len() ==> bestshot_of(#[trigger] bs[k], objs[k], fclt_id, utc_text(j), camera_ip, http_port)
    &&& if objs.len() == 0 {
        m.is_blank_but_facility()
    } else {
        classified_but_facility(m, objs.last())
    }
}

/// The processing of one metadata frame of a Hanwha camera
/// (`MetadataStream.VideoAnalytics.Frame`): each object in turn; the frame
/// yields the metadata of the last one (blank where there is none) and the
/// best-shot record of each.
pub fn proc(j: &JsonValue, fclt_id: &String, camera_ip: &String, http_port: &String) -> (r: FrameOutcome)
    requires
        frame_time_ok(*j, "MetadataStream"@),
    ensures
        frame_processed(*j, fclt_id@, camera_ip@, http_port@, r.metadata, r.bestshots@),
        r.metadata.fcltId@ == Seq::<char>::empty(),
{
    let time = frame_time(j, "MetadataStream");
    let utc_time = string_of(&time);
    let objs = frame_objects(j);
    let ghost spec_objs = objects_of(*j, has_time(*j));
    let mut bestshots: Vec<Option<Bestshot>> = Vec::new();
    let mut metadata = Metadata::new();
    let mut i: usize = 0;
    while i < objs.len()
        invariant
            i <= objs@.len(),
            utc_time@ == utc_text(*j),
            objs@.len() == spec_objs.len(),
            forall|k: int| 0 <= k < objs@.len() ==> *objs@[k] == spec_objs[k],
            bestshots@.len() == i,
            forall|k: int|
                0 <= k < i ==> bestshot_of(#[trigger] bestshots@[k], spec_objs[k], fclt_id@, utc_text(*j), camera_ip@, http_port@),
            if i == 0 { metadata.is_blank() } else { classified(metadata, spec_objs[i - 1]) },
        decreases objs.len() - i,
    {
        let outcome = proc_metadata(objs[i], fclt_id, &utc_time, camera_ip, http_port);
        metadata = outcome.metadata;
        bestshots.push(outcome.bestshot);
        i = i + 1;
    }
    FrameOutcome { metadata, bestshots }
}

/// The processing of one metadata frame where its time reads as a date;
/// `None` for a frame whose time does not (the frame that `proc` does not
/// accept).
pub fn try_proc(j: &JsonValue, fclt_id: &String, camera_ip: &String, http_port: &String) -> (r: Option<FrameOutcome>)
    ensures
        r is Some <==> frame_time_ok(*j, "MetadataStream"@),
        r matches Some(out) ==> frame_processed(*j, fclt_id@, camera_ip@, http_port@, out.metadata, out.bestshots@)
            && out.metadata.fcltId@ == Seq::<char>::empty(),
{
    let time = frame_time(j, "MetadataStream");
    if !chars_equal_lit(&time, "null") {
        let s = string_of(&time);
        if !parse_utc_time(&s) {
            return None;
        }
    }
    Some(proc(j, fclt_id, camera_ip, http_port))
}


/// Where a Hanwha best shot is fetched from and filed to: the camera's
/// directory `<img_save_path>/<ip>`, the file `<dir>/<file_id>.jpg` and the
/// address `http://<ip>:<http_port><image_ref>`.
pub fn bestshot_download(
    img_save_path: &String,
    ip: &String,
    http_port: &String,
    image_ref: &String,
    file_id: &String,
) -> (r: DownloadPlan)
    ensures
        r.dir@ == img_save_path@ + "/"@ + ip@,
        r.file_name@ == img_save_path@ + "/"@ + ip@ + "/"@ + file_id@ + ".jpg"@,
        r.url@ == "http://"@ + ip@ + ":"@ + http_port@ + image_ref@,
{
    let (dir, file_name) = image_location(img_save_path, ip, file_id);
    let mut url = String::from_str("http://");
    url.append(ip.as_str());
    url.append(":");
    url.append(http_port.as_str());
    url.append(image_ref.as_str());
    DownloadPlan { dir, file_name, url }
}

} // verus!
