use vstd::prelude::*;

use crate::bestshot::Bestshot;
use crate::fclt::{fclt_data_of, field_of, setting_of, FcltData, FcltField, FcltModel, FcltTypeData};
use crate::hanwha::{
    class_text, classified, frame_processed, has_time, is_face_class, is_human_class, is_vehicle_class,
    objects_of, pair_code,
};
use crate::json::{json_escaped, json_plain, json_quoted_of, lemma_escaped_concat, lemma_escaped_plain, JsonValue};
use crate::metadata::Metadata;
use crate::registry::Registry;
use crate::text::{lemma_contains_by_length, lemma_replace_absent, lemma_replace_first, occurs_at, remove_quotes, seq_contains};
use crate::edge::{image_ref_text, image_url_of};
use crate::frame::{at2, at3, objects_under_of};
use crate::hanwha::{appearance, appears, lower_text};
use crate::json::{json_get, json_index, json_text};

verus! {

/// The JSON literal of a string names every word of the string that has no
/// escaped character: a class or attribute held as a JSON string is read by
/// the words it holds.
pub proof fn law_json_string_keeps_plain_words(s: Seq<char>, p: Seq<char>)
    requires
        json_plain(p),
        seq_contains(s, p),
    ensures
        seq_contains(json_quoted_of(s), p),
{
    let i = choose|i: int| 0 <= i && i + p.len() <= s.len() && #[trigger] s.subrange(i, i + p.len()) == p;
    let pre = s.subrange(0, i);
    let post = s.subrange(i + p.len(), s.len() as int);
    assert(s =~= pre + p + post);
    lemma_escaped_concat(pre + p, post);
    lemma_escaped_concat(pre, p);
    lemma_escaped_plain(p);
    let q = json_quoted_of(s);
    let k: int = 1 + json_escaped(pre).len() as int;
    assert(q =~= seq!['"'] + json_escaped(pre) + p + json_escaped(post) + seq!['"']);
    assert(q.subrange(k, k + p.len()) =~= p);
}

/// A gender text that names `female` also names `male`, so it reads as male
/// (0): the gender code 1 is never given.
pub proof fn law_female_reads_as_male(t: Seq<char>)
    ensures
        seq_contains(t, "female"@) ==> seq_contains(t, "male"@),
        pair_code(t, "male"@, "female"@) != 1,
{
    reveal_strlit("female");
    reveal_strlit("male");
    if seq_contains(t, "female"@) {
        let i = choose|i: int| 0 <= i && i + "female"@.len() <= t.len() && #[trigger] t.subrange(i, i + "female"@.len()) == "female"@;
        assert(t.subrange(i + 2, i + 6) =~= "male"@) by {
            assert forall|k: int| 0 <= k < 4 implies t.subrange(i + 2, i + 6)[k] == "male"@[k] by {
                assert(t.subrange(i, i + 6)[k + 2] == t[i + 2 + k]);
            }
        }
        assert(t.subrange(i + 2, i + 2 + "male"@.len()) == "male"@);
    }
}

/// What the classification of an object reports follows its class: the
/// detection code is one of -1, 0, 1, 2, 3; face attributes are read only for
/// a face, person attributes only for a person, the vehicle type only for a
/// vehicle; no gender is ever reported as female; no colour is ever reported.
pub proof fn law_attributes_follow_class(m: Metadata, o: JsonValue)
    requires
        classified(m, o),
    ensures
        m.detectType == -1 || m.detectType == 0 || m.detectType == 1 || m.detectType == 2 || m.detectType == 3,
        !is_face_class(class_text(o)) ==> m.faceGenderType == -1 && m.ageType == -1 && m.hat == -1
            && m.mask == -1 && m.opticals == -1,
        !is_human_class(class_text(o)) ==> m.genderType == -1 && m.hatDetection == -1 && m.topLength
            == -1 && m.bottomLength == -1 && m.bagDetection == -1,
        !is_vehicle_class(class_text(o)) ==> m.vehicleType == -1,
        m.faceGenderType != 1,
        m.genderType != 1,
        m.topColor@.len() == 0 && m.bottomColor@.len() == 0 && m.vehicleColor@.len() == 0,
{
    let app = crate::hanwha::appearance(o);
    law_female_reads_as_male(crate::hanwha::lower_text(crate::frame::at2(app, "HumanFace"@, "Gender"@)));
    law_female_reads_as_male(crate::hanwha::lower_text(crate::frame::at2(app, "HumanBody"@, "Gender"@)));
}

/// A frame without a time yields no best shot and blank metadata.
pub proof fn law_frame_without_time(
    j: JsonValue,
    fclt_id: Seq<char>,
    camera_ip: Seq<char>,
    http_port: Seq<char>,
    m: Metadata,
    bs: Seq<Option<Bestshot>>,
)
    requires
        !has_time(j),
        frame_processed(j, fclt_id, camera_ip, http_port, m, bs),
    ensures
        bs.len() == 0,
        m.is_blank_but_facility(),
{
}

/// A frame yields the metadata of its last object: the metadata of two
/// frames whose last objects agree report the same codes.
pub proof fn law_frame_reports_last_object(
    j: JsonValue,
    fclt_id: Seq<char>,
    camera_ip: Seq<char>,
    http_port: Seq<char>,
    m: Metadata,
    bs: Seq<Option<Bestshot>>,
)
    requires
        objects_of(j, has_time(j)).len() > 0,
        frame_processed(j, fclt_id, camera_ip, http_port, m, bs),
    ensures
        m.detectType == crate::hanwha::detect_type_of(class_text(objects_of(j, has_time(j)).last())),
        m.vehicleType == crate::hanwha::vehicle_type_of(objects_of(j, has_time(j)).last()),
        m.faceGenderType == crate::hanwha::face_gender_of(objects_of(j, has_time(j)).last()),
        m.genderType == crate::hanwha::body_gender_of(objects_of(j, has_time(j)).last()),
{
}

/// A facility without a setting for a camera field gets the field's default
/// (empty, or port `80` for HTTP).
pub proof fn law_setting_default(entries: Seq<FcltTypeData>, f: FcltField, default: Seq<char>)
    requires
        forall|i: int| 0 <= i < entries.len() ==> field_of(#[trigger] entries[i].data_key@) != f,
    ensures
        setting_of(entries, f, default) == default,
    decreases entries.len(),
{
    if entries.len() > 0 {
        law_setting_default(entries.drop_last(), f, default);
    }
}

/// The last setting that names a field decides it, whatever follows it.
pub proof fn law_last_setting_wins(entries: Seq<FcltTypeData>, f: FcltField, default: Seq<char>, i: int)
    requires
        0 <= i < entries.len(),
        field_of(entries[i].data_key@) == f,
        forall|k: int| i < k < entries.len() ==> field_of(#[trigger] entries[k].data_key@) != f,
    ensures
        setting_of(entries, f, default) == crate::text::remove_quotes(entries[i].value@),
    decreases entries.len(),
{
    if i < entries.len() - 1 {
        law_last_setting_wins(entries.drop_last(), f, default, i);
    }
}

/// What a registry gives back for a key is what the last `insert` under it
/// put there; every other key keeps what it had.
pub proof fn law_registry_read_after_write<V>(
    before: Registry<V>,
    after: Registry<V>,
    key: Seq<char>,
    value: V,
    other: Seq<char>,
)
    requires
        after.map() == before.map().insert(key, value),
        other != key,
    ensures
        after.map().dom().contains(key),
        after.map()[key] == value,
        after.map().dom().contains(other) == before.map().dom().contains(other),
        before.map().dom().contains(other) ==> after.map()[other] == before.map()[other],
{
}

/// A key that is removed is no longer registered; every other key keeps
/// what it had.
pub proof fn law_registry_remove<V>(before: Registry<V>, after: Registry<V>, key: Seq<char>, other: Seq<char>)
    requires
        after.map() == before.map().remove(key),
        other != key,
    ensures
        !after.map().dom().contains(key),
        after.map().dom().contains(other) == before.map().dom().contains(other),
        before.map().dom().contains(other) ==> after.map()[other] == before.map()[other],
{
}

/// The objects of a frame that carries a time are the elements of its
/// `Frame.Object` list, all of them and in order; a single object stands for
/// itself and `null` for none.
pub proof fn law_frame_objects_are_the_list(j: JsonValue, prefix: Seq<char>)
    ensures
        ({
            let node = at2(at2(j, prefix, "VideoAnalytics"@), "Frame"@, "Object"@);
            &&& node matches JsonValue::Array(items) ==> objects_under_of(j, prefix, true) == items@
            &&& node is Null ==> objects_under_of(j, prefix, true).len() == 0
            &&& !(node is Array) && !(node is Null) ==> objects_under_of(j, prefix, true) == seq![node]
            &&& objects_under_of(j, prefix, false).len() == 0
        }),
{
}

/// A Hanwha frame with a time whose `Frame.Object` is a list yields one
/// best-shot entry per element, the `k`-th that of the `k`-th element, each
/// carrying the camera address and port given to the processing, and
/// reports the classification of the last element.
pub proof fn law_frame_processes_every_listed_object(
    j: JsonValue,
    fclt_id: Seq<char>,
    camera_ip: Seq<char>,
    http_port: Seq<char>,
    m: Metadata,
    bs: Seq<Option<Bestshot>>,
    items: Seq<JsonValue>,
)
    requires
        has_time(j),
        at2(at2(j, "MetadataStream"@, "VideoAnalytics"@), "Frame"@, "Object"@) matches JsonValue::Array(v) && v@ == items,
        frame_processed(j, fclt_id, camera_ip, http_port, m, bs),
    ensures
        bs.len() == items.len(),
        forall|k: int|
            0 <= k < items.len() ==> crate::hanwha::bestshot_of(
                #[trigger] bs[k],
                items[k],
                fclt_id,
                crate::hanwha::utc_text(j),
                camera_ip,
                http_port,
            ),
        forall|k: int|
            0 <= k < items.len() ==> (#[trigger] bs[k] is Some <==> json_get(
                crate::hanwha::appearance(items[k]),
                "ImageRef"@,
            ) is Some),
        forall|k: int|
            0 <= k < bs.len() && #[trigger] bs[k] is Some ==> bs[k]->0.camera_ip@ == camera_ip
                && bs[k]->0.http_port@ == http_port && bs[k]->0.fclt_id@ == fclt_id,
        items.len() > 0 ==> crate::hanwha::classified_but_facility(m, items.last()),
        items.len() == 0 ==> m.is_blank_but_facility(),
{
    law_frame_objects_are_the_list(j, "MetadataStream"@);
    assert forall|k: int| 0 <= k < bs.len() && #[trigger] bs[k] is Some implies bs[k]->0.camera_ip@ == camera_ip
        && bs[k]->0.http_port@ == http_port && bs[k]->0.fclt_id@ == fclt_id by {
        assert(crate::hanwha::bestshot_of(bs[k], items[k], fclt_id, crate::hanwha::utc_text(j), camera_ip, http_port));
    }
    assert forall|k: int| 0 <= k < items.len() implies (#[trigger] bs[k] is Some <==> json_get(
        crate::hanwha::appearance(items[k]),
        "ImageRef"@,
    ) is Some) by {
        assert(crate::hanwha::bestshot_of(bs[k], items[k], fclt_id, crate::hanwha::utc_text(j), camera_ip, http_port));
    }
}

/// Every best-shot record of a Truen frame carries the camera address and
/// the HTTP port given to the processing, the date given to it and the file
/// name `<file_ids[k]>.jpg` of its own object; the facility and the frame
/// time stand in each other's place; there is one entry per object.
pub proof fn law_truen_bestshots_carry_camera(
    j: JsonValue,
    fclt_id: Seq<char>,
    camera_ip: Seq<char>,
    http_port: Seq<char>,
    date: i64,
    file_ids: Seq<String>,
    m: Metadata,
    bs: Seq<Option<Bestshot>>,
)
    requires
        crate::truen::frame_processed(j, fclt_id, camera_ip, http_port, date, file_ids, m, bs),
    ensures
        bs.len() == crate::truen::objects_of(j).len(),
        forall|k: int|
            0 <= k < bs.len() && #[trigger] bs[k] is Some ==> {
                &&& bs[k]->0.camera_ip@ == camera_ip
                &&& bs[k]->0.http_port@ == http_port
                &&& bs[k]->0.date == date
                &&& bs[k]->0.file_name@ == file_ids[k]@ + ".jpg"@
                &&& bs[k]->0.fclt_id@ == crate::truen::utc_text(j)
                &&& bs[k]->0.utc_time@ == fclt_id
            },
        forall|k: int|
            0 <= k < bs.len() ==> (#[trigger] bs[k] is Some <==> json_get(
                crate::json::json_index(crate::truen::objects_of(j)[k], "Appearance"@),
                "ImageRef"@,
            ) is Some),
        m.is_blank_but_facility(),
{
    let objs = crate::truen::objects_of(j);
    assert forall|k: int| 0 <= k < bs.len() && #[trigger] bs[k] is Some implies {
        &&& bs[k]->0.camera_ip@ == camera_ip
        &&& bs[k]->0.http_port@ == http_port
        &&& bs[k]->0.date == date
        &&& bs[k]->0.file_name@ == file_ids[k]@ + ".jpg"@
        &&& bs[k]->0.fclt_id@ == crate::truen::utc_text(j)
        &&& bs[k]->0.utc_time@ == fclt_id
    } by {
        assert(crate::truen::bestshot_of(bs[k], objs[k], fclt_id, crate::truen::utc_text(j), camera_ip, http_port, date, file_ids[k]@));
    }
    assert forall|k: int| 0 <= k < bs.len() implies (#[trigger] bs[k] is Some <==> json_get(
        crate::json::json_index(objs[k], "Appearance"@),
        "ImageRef"@,
    ) is Some) by {
        assert(crate::truen::bestshot_of(bs[k], objs[k], fclt_id, crate::truen::utc_text(j), camera_ip, http_port, date, file_ids[k]@));
    }
}

/// The detection code of an object follows its class text: a face or head
/// is 2, else a person 0, else a vehicle 1, else a licence plate 3, and any
/// other class -1.
pub proof fn law_detection_codes(m: Metadata, o: JsonValue)
    requires
        classified(m, o),
    ensures
        ({
            let c = class_text(o);
            &&& seq_contains(c, "Face"@) || seq_contains(c, "Head"@) ==> m.detectType == 2
            &&& !seq_contains(c, "Face"@) && !seq_contains(c, "Head"@) && seq_contains(c, "Human"@)
                ==> m.detectType == 0
            &&& !seq_contains(c, "Face"@) && !seq_contains(c, "Head"@) && !seq_contains(c, "Human"@)
                && seq_contains(c, "Vehicle"@) ==> m.detectType == 1
            &&& !seq_contains(c, "Face"@) && !seq_contains(c, "Head"@) && !seq_contains(c, "Human"@)
                && !seq_contains(c, "Vehicle"@) && seq_contains(c, "LicensePlate"@) ==> m.detectType == 3
            &&& !seq_contains(c, "Face"@) && !seq_contains(c, "Head"@) && !seq_contains(c, "Human"@)
                && !seq_contains(c, "Vehicle"@) && !seq_contains(c, "LicensePlate"@) ==> m.detectType == -1
        }),
{
}

/// The age of a face with a `HumanFace` member follows the lower-cased
/// `AgeType` text: young 0, else adult 1, else middle 2, else senior 3, else
/// -1; distinct age categories get distinct codes.
pub proof fn law_face_age_codes(m: Metadata, o: JsonValue)
    requires
        classified(m, o),
        is_face_class(class_text(o)),
        appears(o, "HumanFace"@),
    ensures
        ({
            let t = lower_text(at2(appearance(o), "HumanFace"@, "AgeType"@));
            &&& seq_contains(t, "young"@) ==> m.ageType == 0
            &&& !seq_contains(t, "young"@) && seq_contains(t, "adult"@) ==> m.ageType == 1
            &&& !seq_contains(t, "young"@) && !seq_contains(t, "adult"@) && seq_contains(t, "middle"@)
                ==> m.ageType == 2
            &&& !seq_contains(t, "young"@) && !seq_contains(t, "adult"@) && !seq_contains(t, "middle"@)
                && seq_contains(t, "senior"@) ==> m.ageType == 3
            &&& !seq_contains(t, "young"@) && !seq_contains(t, "adult"@) && !seq_contains(t, "middle"@)
                && !seq_contains(t, "senior"@) ==> m.ageType == -1
        }),
{
}

/// The gender and the accessories of a face with a `HumanFace` member
/// follow their lower-cased texts: gender `male` 0 (else `female` 1, else
/// -1); an accessory that says `true` 1, else `false` 0, else -1.
pub proof fn law_face_gender_and_accessory_codes(m: Metadata, o: JsonValue)
    requires
        classified(m, o),
        is_face_class(class_text(o)),
        appears(o, "HumanFace"@),
    ensures
        ({
            let g = lower_text(at2(appearance(o), "HumanFace"@, "Gender"@));
            &&& seq_contains(g, "male"@) ==> m.faceGenderType == 0
            &&& !seq_contains(g, "male"@) && !seq_contains(g, "female"@) ==> m.faceGenderType == -1
        }),
        ({
            let h = lower_text(at3(appearance(o), "Accessory"@, "Hat"@, "Wear"@));
            &&& seq_contains(h, "true"@) ==> m.hat == 1
            &&& !seq_contains(h, "true"@) && seq_contains(h, "false"@) ==> m.hat == 0
            &&& !seq_contains(h, "true"@) && !seq_contains(h, "false"@) ==> m.hat == -1
        }),
        ({
            let k = lower_text(at3(appearance(o), "Accessory"@, "Mask"@, "Wear"@));
            &&& seq_contains(k, "true"@) ==> m.mask == 1
            &&& !seq_contains(k, "true"@) && seq_contains(k, "false"@) ==> m.mask == 0
            &&& !seq_contains(k, "true"@) && !seq_contains(k, "false"@) ==> m.mask == -1
        }),
        ({
            let q = lower_text(at3(appearance(o), "Accessory"@, "Opticals"@, "Wear"@));
            &&& seq_contains(q, "true"@) ==> m.opticals == 1
            &&& !seq_contains(q, "true"@) && seq_contains(q, "false"@) ==> m.opticals == 0
            &&& !seq_contains(q, "true"@) && !seq_contains(q, "false"@) ==> m.opticals == -1
        }),
{
}

/// A face without a `HumanFace` member reports no face attribute.
pub proof fn law_face_without_human_face(m: Metadata, o: JsonValue)
    requires
        classified(m, o),
        !appears(o, "HumanFace"@),
    ensures
        m.faceGenderType == -1 && m.ageType == -1 && m.hat == -1 && m.mask == -1 && m.opticals == -1,
{
}

/// The attributes of a person follow their texts: body gender `male` 0 where
/// there is a `HumanBody` member; a hat that says `false` 0, else `true` 1;
/// tops and bottoms `short` 0, else `long` 1; a bag 1 where the bag category
/// says `bag` (as written), else 0, where there is a `Belonging` member; -1
/// where a member is missing or its text names none of these.
pub proof fn law_person_attribute_codes(m: Metadata, o: JsonValue)
    requires
        classified(m, o),
        is_human_class(class_text(o)),
    ensures
        ({
            let g = lower_text(at2(appearance(o), "HumanBody"@, "Gender"@));
            &&& appears(o, "HumanBody"@) && seq_contains(g, "male"@) ==> m.genderType == 0
            &&& !appears(o, "HumanBody"@) || (!seq_contains(g, "male"@) && !seq_contains(g, "female"@))
                ==> m.genderType == -1
        }),
        ({
            let clothing = json_index(appearance(o), "Clothing"@);
            let h = lower_text(at3(appearance(o), "Clothing"@, "Hat"@, "Wear"@));
            let worn = appears(o, "Clothing"@) && json_get(clothing, "Hat"@) is Some;
            &&& worn && seq_contains(h, "false"@) ==> m.hatDetection == 0
            &&& worn && !seq_contains(h, "false"@) && seq_contains(h, "true"@) ==> m.hatDetection == 1
            &&& !worn || (!seq_contains(h, "false"@) && !seq_contains(h, "true"@)) ==> m.hatDetection == -1
        }),
        ({
            let clothing = json_index(appearance(o), "Clothing"@);
            let t = lower_text(at3(appearance(o), "Clothing"@, "Tops"@, "Length"@));
            let worn = appears(o, "Clothing"@) && json_get(clothing, "Tops"@) is Some;
            &&& worn && seq_contains(t, "short"@) ==> m.topLength == 0
            &&& worn && !seq_contains(t, "short"@) && seq_contains(t, "long"@) ==> m.topLength == 1
            &&& !worn || (!seq_contains(t, "short"@) && !seq_contains(t, "long"@)) ==> m.topLength == -1
        }),
        ({
            let clothing = json_index(appearance(o), "Clothing"@);
            let b = lower_text(at3(appearance(o), "Clothing"@, "Bottoms"@, "Length"@));
            let worn = appears(o, "Clothing"@) && json_get(clothing, "Bottoms"@) is Some;
            &&& worn && seq_contains(b, "short"@) ==> m.bottomLength == 0
            &&& worn && !seq_contains(b, "short"@) && seq_contains(b, "long"@) ==> m.bottomLength == 1
            &&& !worn || (!seq_contains(b, "short"@) && !seq_contains(b, "long"@)) ==> m.bottomLength == -1
        }),
        ({
            let c = json_text(at3(appearance(o), "Belonging"@, "Bag"@, "Category"@));
            &&& appears(o, "Belonging"@) && seq_contains(c, "bag"@) ==> m.bagDetection == 1
            &&& appears(o, "Belonging"@) && !seq_contains(c, "bag"@) ==> m.bagDetection == 0
            &&& !appears(o, "Belonging"@) ==> m.bagDetection == -1
        }),
{
}

/// The type of a vehicle follows its lower-cased `VehicleInfo.Type` text:
/// car 1, else bus 2, else truck 3, else motocycle 4, else bicycle 5, else -1.
pub proof fn law_vehicle_type_codes(m: Metadata, o: JsonValue)
    requires
        classified(m, o),
        is_vehicle_class(class_text(o)),
    ensures
        ({
            let t = lower_text(at2(appearance(o), "VehicleInfo"@, "Type"@));
            &&& seq_contains(t, "car"@) ==> m.vehicleType == 1
            &&& !seq_contains(t, "car"@) && seq_contains(t, "bus"@) ==> m.vehicleType == 2
            &&& !seq_contains(t, "car"@) && !seq_contains(t, "bus"@) && seq_contains(t, "truck"@)
                ==> m.vehicleType == 3
            &&& !seq_contains(t, "car"@) && !seq_contains(t, "bus"@) && !seq_contains(t, "truck"@)
                && seq_contains(t, "motocycle"@) ==> m.vehicleType == 4
            &&& !seq_contains(t, "car"@) && !seq_contains(t, "bus"@) && !seq_contains(t, "truck"@)
                && !seq_contains(t, "motocycle"@) && seq_contains(t, "bicycle"@) ==> m.vehicleType == 5
            &&& !seq_contains(t, "car"@) && !seq_contains(t, "bus"@) && !seq_contains(t, "truck"@)
                && !seq_contains(t, "motocycle"@) && !seq_contains(t, "bicycle"@) ==> m.vehicleType == -1
        }),
{
}

/// A setting whose key names no camera field, wherever it stands, changes
/// the value of no field.
pub proof fn lemma_unused_setting(e: Seq<FcltTypeData>, i: int, x: FcltTypeData, f: FcltField, default: Seq<char>)
    requires
        0 <= i <= e.len(),
        field_of(x.data_key@) == FcltField::Unused,
        f != FcltField::Unused,
    ensures
        setting_of(e.insert(i, x), f, default) == setting_of(e, f, default),
    decreases e.len(),
{
    let e2 = e.insert(i, x);
    if i == e.len() {
        assert(e2.drop_last() =~= e);
    } else {
        assert(e2.last() == e.last());
        assert(e2.drop_last() =~= e.drop_last().insert(i, x));
        lemma_unused_setting(e.drop_last(), i, x, f, default);
    }
}

/// Each camera field of a facility is read from its whole list of settings.
pub proof fn law_fclt_fields_from_all_settings(m: FcltModel, d: FcltData)
    requires
        fclt_data_of(m, d),
    ensures
        d.fclt_id@ == m.fclt_id@,
        d.fclt_name@ == m.fclt_name@,
        d.camera_ip@ == setting_of(m.fclt_type_data@, FcltField::CameraIp, Seq::empty()),
        d.rtsp_port@ == setting_of(m.fclt_type_data@, FcltField::RtspPort, Seq::empty()),
        d.camera_id@ == setting_of(m.fclt_type_data@, FcltField::CameraId, Seq::empty()),
        d.camera_pass@ == setting_of(m.fclt_type_data@, FcltField::CameraPass, Seq::empty()),
        d.ai_cam_model@ == setting_of(m.fclt_type_data@, FcltField::AiCamModel, Seq::empty()),
        d.http_port@ == setting_of(m.fclt_type_data@, FcltField::HttpPort, "80"@),
{
}

/// The last setting of a facility that names a camera field decides that
/// field, whatever settings stand before or after it.
pub proof fn law_fclt_last_setting_decides(m: FcltModel, d: FcltData, i: int)
    requires
        fclt_data_of(m, d),
        0 <= i < m.fclt_type_data@.len(),
        forall|k: int|
            i < k < m.fclt_type_data@.len() ==> field_of(#[trigger] m.fclt_type_data@[k].data_key@)
                != field_of(m.fclt_type_data@[i].data_key@),
    ensures
        ({
            let e = m.fclt_type_data@;
            let v = crate::text::remove_quotes(e[i].value@);
            &&& field_of(e[i].data_key@) == FcltField::CameraIp ==> d.camera_ip@ == v
            &&& field_of(e[i].data_key@) == FcltField::RtspPort ==> d.rtsp_port@ == v
            &&& field_of(e[i].data_key@) == FcltField::CameraId ==> d.camera_id@ == v
            &&& field_of(e[i].data_key@) == FcltField::CameraPass ==> d.camera_pass@ == v
            &&& field_of(e[i].data_key@) == FcltField::AiCamModel ==> d.ai_cam_model@ == v
            &&& field_of(e[i].data_key@) == FcltField::HttpPort ==> d.http_port@ == v
        }),
{
    let e = m.fclt_type_data@;
    let f = field_of(e[i].data_key@);
    law_last_setting_wins(e, f, Seq::empty(), i);
    law_last_setting_wins(e, f, "80"@, i);
}

/// Two facilities whose settings differ by one setting that names no camera
/// field, wherever it stands, get the same camera.
pub proof fn law_fclt_unused_setting_changes_nothing(
    m1: FcltModel,
    d1: FcltData,
    m2: FcltModel,
    d2: FcltData,
    i: int,
    x: FcltTypeData,
)
    requires
        fclt_data_of(m1, d1),
        fclt_data_of(m2, d2),
        0 <= i <= m1.fclt_type_data@.len(),
        m2.fclt_type_data@ == m1.fclt_type_data@.insert(i, x),
        field_of(x.data_key@) == FcltField::Unused,
    ensures
        d2.camera_ip@ == d1.camera_ip@,
        d2.rtsp_port@ == d1.rtsp_port@,
        d2.camera_id@ == d1.camera_id@,
        d2.camera_pass@ == d1.camera_pass@,
        d2.ai_cam_model@ == d1.ai_cam_model@,
        d2.http_port@ == d1.http_port@,
{
    let e = m1.fclt_type_data@;
    lemma_unused_setting(e, i, x, FcltField::CameraIp, Seq::empty());
    lemma_unused_setting(e, i, x, FcltField::RtspPort, Seq::empty());
    lemma_unused_setting(e, i, x, FcltField::CameraId, Seq::empty());
    lemma_unused_setting(e, i, x, FcltField::CameraPass, Seq::empty());
    lemma_unused_setting(e, i, x, FcltField::AiCamModel, Seq::empty());
    lemma_unused_setting(e, i, x, FcltField::HttpPort, "80"@);
}

/// The edge device fetches a best shot exactly where the frame's image
/// reference is not `null`; a reference that does not name the host
/// `172.30.1.11` is fetched from as it stands, without double quotes.
pub proof fn law_image_url_fetched_unless_null(j: JsonValue)
    ensures
        image_ref_text(j) == "null"@ <==> image_url_of(j) is None,
        image_ref_text(j) != "null"@ && !seq_contains(remove_quotes(image_ref_text(j)), "172.30.1.11"@)
            ==> image_url_of(j) == Some(remove_quotes(image_ref_text(j))),
{
    reveal_strlit("172.30.1.11");
    if image_ref_text(j) != "null"@ && !seq_contains(remove_quotes(image_ref_text(j)), "172.30.1.11"@) {
        lemma_replace_absent(remove_quotes(image_ref_text(j)), "172.30.1.11"@, "southdoor2.truecam.net"@);
    }
}

/// A reference that names the host `172.30.1.11` once, after `a` and before
/// `b`, is fetched from `a`, `southdoor2.truecam.net`, `b`.
pub proof fn law_image_url_replaces_host(j: JsonValue, a: Seq<char>, b: Seq<char>)
    requires
        image_ref_text(j) != "null"@,
        remove_quotes(image_ref_text(j)) == a + "172.30.1.11"@ + b,
        forall|i: int| 0 <= i < a.len() ==> !occurs_at(a + "172.30.1.11"@ + b, "172.30.1.11"@, i),
        !seq_contains(b, "172.30.1.11"@),
    ensures
        image_url_of(j) == Some(a + "southdoor2.truecam.net"@ + b),
{
    reveal_strlit("172.30.1.11");
    lemma_replace_first(a, b, "172.30.1.11"@, "southdoor2.truecam.net"@);
}

/// The best-shot record of a Hanwha object: one exactly where the object has
/// an `Appearance.ImageRef`, holding that reference and the class text
/// without double quotes, the JSON text of the object id, the facility,
/// camera, port and time handed to the processing, date 0 and no file name.
pub proof fn law_hanwha_bestshot_fields(
    b: Option<Bestshot>,
    o: JsonValue,
    fclt_id: Seq<char>,
    utc_time: Seq<char>,
    camera_ip: Seq<char>,
    http_port: Seq<char>,
)
    requires
        crate::hanwha::bestshot_of(b, o, fclt_id, utc_time, camera_ip, http_port),
    ensures
        b is Some <==> json_get(json_index(o, "Appearance"@), "ImageRef"@) is Some,
        b matches Some(x) ==> {
            &&& x.image_ref@ == remove_quotes(json_text(json_index(json_index(o, "Appearance"@), "ImageRef"@)))
            &&& x.class@ == remove_quotes(json_text(at3(json_index(o, "Appearance"@), "Class"@, "Type"@, "txt"@)))
            &&& x.object_id@ == json_text(json_index(o, "ObjectId"@))
            &&& x.fclt_id@ == fclt_id
            &&& x.utc_time@ == utc_time
            &&& x.camera_ip@ == camera_ip
            &&& x.http_port@ == http_port
            &&& x.date == 0
            &&& x.file_name@.len() == 0
        },
{
}

/// The best-shot record of a Truen object: one exactly where the object has
/// an `Appearance.ImageRef`, holding that reference and the class text
/// without double quotes, the JSON text of the object id, the values handed
/// to the processing, and the file name `<file_id>.jpg`.
pub proof fn law_truen_bestshot_fields(
    b: Option<Bestshot>,
    o: JsonValue,
    utc_time: Seq<char>,
    fclt_id: Seq<char>,
    camera_ip: Seq<char>,
    http_port: Seq<char>,
    date: i64,
    file_id: Seq<char>,
)
    requires
        crate::truen::bestshot_of(b, o, utc_time, fclt_id, camera_ip, http_port, date, file_id),
    ensures
        b is Some <==> json_get(json_index(o, "Appearance"@), "ImageRef"@) is Some,
        b matches Some(x) ==> {
            &&& x.image_ref@ == remove_quotes(json_text(json_index(json_index(o, "Appearance"@), "ImageRef"@)))
            &&& x.class@ == remove_quotes(json_text(at3(json_index(o, "Appearance"@), "Class"@, "Type"@, "txt"@)))
            &&& x.object_id@ == json_text(json_index(o, "ObjectId"@))
            &&& x.fclt_id@ == fclt_id
            &&& x.utc_time@ == utc_time
            &&& x.camera_ip@ == camera_ip
            &&& x.http_port@ == http_port
            &&& x.date == date
            &&& x.file_name@ == file_id + ".jpg"@
        },
{
}

/// The time that a Hanwha frame stamps on its best shots is the text of its
/// `UtcTime` without double quotes, and a frame carries a time exactly where
/// that text is not `null`.
pub proof fn law_frame_time_text(j: JsonValue)
    ensures
        crate::hanwha::utc_text(j) == remove_quotes(
            json_text(at2(at2(j, "MetadataStream"@, "VideoAnalytics"@), "Frame"@, "UtcTime"@)),
        ),
        crate::truen::utc_text(j) == remove_quotes(
            json_text(at2(at2(j, "MetaDataStream"@, "VideoAnalytics"@), "Frame"@, "UtcTime"@)),
        ),
        has_time(j) <==> crate::hanwha::utc_text(j) != "null"@,
{
}

/// A setting key names the camera field whose name it contains, the first of
/// `cameraIp`, `rtspPort`, `cameraId`, `cameraPass`, `aiCamModel`,
/// `httpPort`; each of these keys as it stands names its own field, and a
/// key that contains none of them names no field.
pub proof fn law_setting_key_names(key: Seq<char>)
    ensures
        seq_contains(key, "cameraIp"@) ==> field_of(key) == FcltField::CameraIp,
        field_of("cameraIp"@) == FcltField::CameraIp,
        field_of("rtspPort"@) == FcltField::RtspPort,
        field_of("cameraId"@) == FcltField::CameraId,
        field_of("cameraPass"@) == FcltField::CameraPass,
        field_of("aiCamModel"@) == FcltField::AiCamModel,
        field_of("httpPort"@) == FcltField::HttpPort,
        !seq_contains(key, "cameraIp"@) && !seq_contains(key, "rtspPort"@) && !seq_contains(key, "cameraId"@)
            && !seq_contains(key, "cameraPass"@) && !seq_contains(key, "aiCamModel"@) && !seq_contains(
            key,
            "httpPort"@,
        ) ==> field_of(key) == FcltField::Unused,
{
    reveal_strlit("cameraIp");
    reveal_strlit("rtspPort");
    reveal_strlit("cameraId");
    reveal_strlit("cameraPass");
    reveal_strlit("aiCamModel");
    reveal_strlit("httpPort");
    lemma_key_names_distinct();
    lemma_contains_by_length("cameraIp"@, "cameraIp"@);
    lemma_contains_by_length("rtspPort"@, "rtspPort"@);
    lemma_contains_by_length("cameraId"@, "cameraId"@);
    lemma_contains_by_length("cameraPass"@, "cameraPass"@);
    lemma_contains_by_length("aiCamModel"@, "aiCamModel"@);
    lemma_contains_by_length("httpPort"@, "httpPort"@);
}

/// No camera field name contains a name that comes before it.
proof fn lemma_key_names_distinct()
    ensures
        !seq_contains("rtspPort"@, "cameraIp"@),
        !seq_contains("cameraId"@, "cameraIp"@),
        !seq_contains("cameraId"@, "rtspPort"@),
        !seq_contains("cameraPass"@, "cameraIp"@),
        !seq_contains("cameraPass"@, "rtspPort"@),
        !seq_contains("cameraPass"@, "cameraId"@),
        !seq_contains("aiCamModel"@, "cameraIp"@),
        !seq_contains("aiCamModel"@, "rtspPort"@),
        !seq_contains("aiCamModel"@, "cameraId"@),
        !seq_contains("aiCamModel"@, "cameraPass"@),
        !seq_contains("httpPort"@, "cameraIp"@),
        !seq_contains("httpPort"@, "rtspPort"@),
        !seq_contains("httpPort"@, "cameraId"@),
        !seq_contains("httpPort"@, "cameraPass"@),
        !seq_contains("httpPort"@, "aiCamModel"@),
{
    reveal_strlit("cameraIp");
    reveal_strlit("rtspPort");
    reveal_strlit("cameraId");
    reveal_strlit("cameraPass");
    reveal_strlit("aiCamModel");
    reveal_strlit("httpPort");
    lemma_absent("rtspPort"@, "cameraIp"@, 0);
    lemma_absent("cameraId"@, "cameraIp"@, 7);
    lemma_absent("cameraId"@, "rtspPort"@, 0);
    lemma_absent("cameraPass"@, "cameraIp"@, 6);
    lemma_absent("cameraPass"@, "rtspPort"@, 0);
    lemma_absent("cameraPass"@, "cameraId"@, 6);
    lemma_absent("aiCamModel"@, "cameraIp"@, 0);
    lemma_absent("aiCamModel"@, "rtspPort"@, 0);
    lemma_absent("aiCamModel"@, "cameraId"@, 0);
    lemma_absent("aiCamModel"@, "cameraPass"@, 0);
    lemma_absent("httpPort"@, "cameraIp"@, 0);
    lemma_absent("httpPort"@, "rtspPort"@, 0);
    lemma_absent("httpPort"@, "cameraId"@, 0);
    lemma_absent("httpPort"@, "cameraPass"@, 0);
    lemma_absent("httpPort"@, "aiCamModel"@, 0);
}

/// `p` does not occur in `s` where every place it could start differs from
/// it at its first character or at character `k` (`s` at most two longer).
proof fn lemma_absent(s: Seq<char>, p: Seq<char>, k: int)
    requires
        0 <= k < p.len(),
        s.len() <= p.len() + 2,
        p.len() <= s.len() ==> s[0] != p[0] || s[k] != p[k],
        p.len() + 1 <= s.len() ==> s[1] != p[0] || s[1 + k] != p[k],
        p.len() + 2 <= s.len() ==> s[2] != p[0] || s[2 + k] != p[k],
    ensures
        !seq_contains(s, p),
{
    if p.len() > s.len() {
        lemma_contains_by_length(s, p);
    } else {
        assert forall|i: int| 0 <= i && i + p.len() <= s.len() implies #[trigger] s.subrange(i, i + p.len()) != p by {
            assert(s.subrange(i, i + p.len())[0] == s[i]);
            assert(s.subrange(i, i + p.len())[k] == s[i + k]);
        }
    }
}

} // verus!
