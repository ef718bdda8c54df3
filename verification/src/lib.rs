//! Collection of ONVIF analytics metadata from AI cameras: the JSON that a
//! metadata message turns into, the processing of Hanwha and Truen frames and
//! their detected objects, the facility settings, the registries of cameras
//! and tasks, and the addresses and file names that the services use.

pub mod bestshot;
pub mod edge;
pub mod facerecognition;
pub mod fclt;
pub mod frame;
pub mod hanwha;
pub mod json;
pub mod laws;
pub mod metadata;
pub mod registry;
pub mod server;
pub mod server_metadata;
pub mod text;
pub mod truen;
