use vstd::prelude::*;

use crate::frame::at3;
use crate::json::{child, json_text, text_or_null, JsonValue};
use crate::text::{chars_equal_lit, chars_of, remove_quotes, replace_all, replace_chars, string_of, without_quotes};

verus! {

/// How the edge device reaches its camera.
pub struct Metadata {
    pub url: String,
    pub username: String,
    pub password: String,
}

/// The JSON text of `MetaDataStream.VideoAnalytics.Frame.Object.Appearance.ImageRef`.
pub open spec fn image_ref_text(j: JsonValue) -> Seq<char> {
    json_text(
        at3(at3(j, "MetaDataStream"@, "VideoAnalytics"@, "Frame"@), "Object"@, "Appearance"@, "ImageRef"@),
    )
}

/// The address from which the edge device fetches a frame's best shot:
/// none where the image reference is `null`; else the reference without
/// double quotes, the host `172.30.1.11` replaced by `southdoor2.truecam.net`.
pub open spec fn image_url_of(j: JsonValue) -> Option<Seq<char>> {
    let t = image_ref_text(j);
    if t == "null"@ {
        None
    } else {
        Some(replace_all(remove_quotes(t), "172.30.1.11"@, "southdoor2.truecam.net"@))
    }
}

/// The address from which the edge device fetches a frame's best shot.
pub fn image_url(j: &JsonValue) -> (r: Option<String>)
    ensures
        match r {
            Some(u) => image_url_of(*j) == Some(u@),
            None => image_url_of(*j) is None,
        },
{
    let frame = child(child(child(Some(j), "MetaDataStream"), "VideoAnalytics"), "Frame");
    let image_ref = text_or_null(child(child(child(frame, "Object"), "Appearance"), "ImageRef"));
    if chars_equal_lit(&image_ref, "null") {
        return None;
    }
    let from = chars_of("172.30.1.11");
    let to = chars_of("southdoor2.truecam.net");
    proof {
        reveal_strlit("172.30.1.11");
    }
    let url = replace_chars(&without_quotes(&image_ref), &from, &to);
    Some(string_of(&url))
}

/// The file under which the edge device stores a best shot:
/// `<image_path>/<file_id>.jpg`.
pub fn image_file_name(image_path: &String, file_id: &String) -> (r: String)
    ensures
        r@ == image_path@ + "/"@ + file_id@ + ".jpg"@,
{
    let mut r = image_path.clone();
    r.append("/");
    r.append(file_id.as_str());
    r.append(".jpg");
    r
}

} // verus!
