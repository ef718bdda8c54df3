use vstd::prelude::*;

verus! {

/// The record sent for every detected object that carries a best-shot image
/// reference.
pub struct Bestshot {
    pub fclt_id: String,
    pub object_id: String,
    pub camera_ip: String,
    pub image_ref: String,
    pub http_port: String,
    pub utc_time: String,
    pub class: String,
    pub date: i64,
    pub file_name: String,
}


/// Where a best-shot image is fetched from and filed to.
pub struct DownloadPlan {
    pub dir: String,
    pub file_name: String,
    pub url: String,
}

/// The directory for a camera's best shots and the file for one of them:
/// `<img_save_path>/<ip>` and `<img_save_path>/<ip>/<file_id>.jpg`.
pub fn image_location(img_save_path: &String, ip: &String, file_id: &String) -> (r: (String, String))
    ensures
        r.0@ == img_save_path@ + "/"@ + ip@,
        r.1@ == img_save_path@ + "/"@ + ip@ + "/"@ + file_id@ + ".jpg"@,
{
    let mut dir = img_save_path.clone();
    dir.append("/");
    dir.append(ip.as_str());
    let mut file = dir.clone();
    file.append("/");
    file.append(file_id.as_str());
    file.append(".jpg");
    (dir, file)
}

} // verus!
