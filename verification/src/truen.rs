use vstd::prelude::*;

use crate::bestshot::{image_location, Bestshot, DownloadPlan};
use crate::frame::{
    at3, frame_objects_under, frame_time, frame_time_ok, frame_time_text, objects_under_of,
    parse_utc_time,
};
use crate::json::{child, json_get, json_index, json_text, text_or_null, JsonValue};
use crate::metadata::Metadata;
use crate::text::{chars_equal_lit, remove_quotes, string_of, without_quotes};

verus! {

/// The time text of a Truen frame (`MetaDataStream.VideoAnalytics.Frame.UtcTime`
/// without double quotes).
pub open spec fn utc_text(j: JsonValue) -> Seq<char> {
    frame_time_text(j, "MetaDataStream"@)
}

/// The objects of a Truen frame, in the order in which they are processed.
pub open spec fn objects_of(j: JsonValue) -> Seq<JsonValue> {
    objects_under_of(j, "MetaDataStream"@, utc_text(j) != "null"@)
}

/// The JSON text of an object's class (`Appearance.Class.Type.txt`).
pub open spec fn class_text(o: JsonValue) -> Seq<char> {
    json_text(at3(json_index(o, "Appearance"@), "Class"@, "Type"@, "txt"@))
}

/// `b` is the best-shot record of the Truen object `o`: one exactly where
/// `Appearance.ImageRef` is present, holding the reference and the class
/// without double quotes, the JSON text of `ObjectId`, the given facility,
/// time, camera and date, and the file name `<file_id>.jpg`.
pub open spec fn bestshot_of(
    b: Option<Bestshot>,
    o: JsonValue,
    utc_time: Seq<char>,
    fclt_id: Seq<char>,
    camera_ip: Seq<char>,
    http_port: Seq<char>,
    date: i64,
    file_id: Seq<char>,
) -> bool {
    match json_get(json_index(o, "Appearance"@), "ImageRef"@) {
        Some(r) => match b {
            Some(x) => {
                &&& x.fclt_id@ == fclt_id
                &&& x.image_ref@ == remove_quotes(json_text(r))
                &&& x.object_id@ == json_text(json_index(o, "ObjectId"@))
                &&& x.camera_ip@ == camera_ip
                &&& x.http_port@ == http_port
                &&& x.utc_time@ == utc_time
                &&& x.class@ == remove_quotes(class_text(o))
                &&& x.date == date
                &&& x.file_name@ == file_id + ".jpg"@
            },
            None => false,
        },
        None => b is None,
    }
}

/// The processing of one detected object of a Truen camera: the best-shot
/// record to send where it carries an image reference. `date` is the day of
/// processing and `file_id` the fresh identifier that names the image file.
pub fn proc_metadata(
    o: &JsonValue,
    utc_time: &String,
    fclt_id: &String,
    camera_ip: &String,
    http_port: &String,
    date: i64,
    file_id: &String,
) -> (r: Option<Bestshot>)
    ensures
        bestshot_of(r, *o, utc_time@, fclt_id@, camera_ip@, http_port@, date, file_id@),
{
    let app = child(Some(o), "Appearance");
    match child(app, "ImageRef") {
        Some(r) => {
            let class = text_or_null(child(child(child(app, "Class"), "Type"), "txt"));
            let object_id = text_or_null(child(Some(o), "ObjectId"));
            let reference = r.text();
            let mut file_name = file_id.clone();
            file_name.append(".jpg");
            Some(
                Bestshot {
                    fclt_id: fclt_id.clone(),
                    object_id: string_of(&object_id),
                    camera_ip: camera_ip.clone(),
                    image_ref: string_of(&without_quotes(&reference)),
                    http_port: http_port.clone(),
                    utc_time: utc_time.clone(),
                    class: string_of(&without_quotes(&class)),
                    date,
                    file_name,
                },
            )
        },
        None => None,
    }
}

/// The number of objects that the processing of a Truen frame visits.
pub fn object_count(j: &JsonValue) -> (n: usize)
    ensures
        n == objects_of(*j).len(),
{
    let time = frame_time(j, "MetaDataStream");
    let has = !chars_equal_lit(&time, "null");
    frame_objects_under(j, "MetaDataStream", has).len()
}

/// What the processing of one Truen frame yields: the metadata it returns,
/// which is always blank, and the best-shot record of each object in frame
/// order.
pub struct TruenOutcome {
    pub metadata: Metadata,
    pub bestshots: Vec<Option<Bestshot>>,
}

/// `m` and `bs` are what the processing of the Truen frame `j` yields: the
/// best-shot record of each of its objects (the facility and the time passed
/// to each in each other's place) and blank metadata, perhaps stamped with a
/// facility.
pub open spec fn frame_processed(
    j: JsonValue,
    fclt_id: Seq<char>,
    camera_ip: Seq<char>,
    http_port: Seq<char>,
    date: i64,
    file_ids: Seq<String>,
    m: Metadata,
    bs: Seq<Option<Bestshot>>,
) -> bool {
    &&& m.is_blank_but_facility()
    &&& bs.len() == objects_of(j).len()
    &&& forall|k: int|
        0 <= k < objects_of(j).len() ==> bestshot_of(
            #[trigger] bs[k],
            objects_of(j)[k],
            fclt_id,
            utc_text(j),
            camera_ip,
            http_port,
            date,
            file_ids[k]@,
        )
}

/// The processing of one metadata frame of a Truen camera
/// (`MetaDataStream.VideoAnalytics.Frame`). Each object is handed the
/// facility where the time belongs and the time where the facility belongs,
/// as the processing passes them; `file_ids[k]` names the image of object
/// `k`. The metadata returned is blank whatever the frame holds.
pub fn proc(
    j: &JsonValue,
    fclt_id: &String,
    camera_ip: &String,
    http_port: &String,
    date: i64,
    file_ids: &Vec<String>,
) -> (r: TruenOutcome)
    requires
        frame_time_ok(*j, "MetaDataStream"@),
        file_ids@.len() == objects_of(*j).len(),
    ensures
        frame_processed(*j, fclt_id@, camera_ip@, http_port@, date, file_ids@, r.metadata, r.bestshots@),
        r.metadata.fcltId@ == Seq::<char>::empty(),
{
    let time = frame_time(j, "MetaDataStream");
    let date_str = string_of(&time);
    let has = !chars_equal_lit(&time, "null");
    let objs = frame_objects_under(j, "MetaDataStream", has);
    let ghost spec_objs = objects_of(*j);
    let mut bestshots: Vec<Option<Bestshot>> = Vec::new();
    let mut i: usize = 0;
    while i < objs.len()
        invariant
            i <= objs@.len(),
            date_str@ == utc_text(*j),
            objs@.len() == spec_objs.len(),
            file_ids@.len() == spec_objs.len(),
            forall|k: int| 0 <= k < objs@.len() ==> *objs@[k] == spec_objs[k],
            bestshots@.len() == i,
            forall|k: int|
                0 <= k < i ==> bestshot_of(
                    #[trigger] bestshots@[k],
                    spec_objs[k],
                    fclt_id@,
                    utc_text(*j),
                    camera_ip@,
                    http_port@,
                    date,
                    file_ids@[k]@,
                ),
        decreases objs.len() - i,
    {
        let b = proc_metadata(objs[i], fclt_id, &date_str, camera_ip, http_port, date, &file_ids[i]);
        bestshots.push(b);
        i = i + 1;
    }
    TruenOutcome { metadata: Metadata::new(), bestshots }
}

/// The processing of one Truen frame where its time reads as a date; `None`
/// for a frame whose time does not (the frame that `proc` does not accept)
/// or where `file_ids` does not name one file per object.
pub fn try_proc(
    j: &JsonValue,
    fclt_id: &String,
    camera_ip: &String,
    http_port: &String,
    date: i64,
    file_ids: &Vec<String>,
) -> (r: Option<TruenOutcome>)
    ensures
        r is Some <==> (frame_time_ok(*j, "MetaDataStream"@) && file_ids@.len() == objects_of(*j).len()),
        r matches Some(out) ==> frame_processed(
            *j,
            fclt_id@,
            camera_ip@,
            http_port@,
            date,
            file_ids@,
            out.metadata,
            out.bestshots@,
        ) && out.metadata.fcltId@ == Seq::<char>::empty(),
{
    let time = frame_time(j, "MetaDataStream");
    if !chars_equal_lit(&time, "null") {
        let s = string_of(&time);
        if !parse_utc_time(&s) {
            return None;
        }
    }
    if file_ids.len() != object_count(j) {
        return None;
    }
    Some(proc(j, fclt_id, camera_ip, http_port, date, file_ids))
}


/// Where a Truen best shot is fetched from and filed to: the camera's
/// directory `<img_save_path>/<ip>`, the file `<dir>/<file_id>.jpg` and the
/// image reference itself as the address.
pub fn bestshot_download(img_save_path: &String, ip: &String, image_ref: &String, file_id: &String) -> (r:
    DownloadPlan)
    ensures
        r.dir@ == img_save_path@ + "/"@ + ip@,
        r.file_name@ == img_save_path@ + "/"@ + ip@ + "/"@ + file_id@ + ".jpg"@,
        r.url@ == image_ref@,
{
    let (dir, file_name) = image_location(img_save_path, ip, file_id);
    DownloadPlan { dir, file_name, url: image_ref.clone() }
}

} // verus!
