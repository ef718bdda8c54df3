# onvif_metadata

Collection of ONVIF analytics metadata from AI cameras (Hanwha, Truen): each
RTSP metadata message is turned from XML into JSON, every detected object is
classified (face, person, vehicle, licence plate and their attributes), and the
results and best-shot records are sent on to Kafka.

- `src/` is the library, written in Verus: the JSON model and its text, the
  per-camera frame and object processing, the facility settings, the camera
  and task registries, and the addresses and file names the services use.
  Each public function states what it returns in its contract; `laws.rs`
  states the properties that span several functions.
- `tests/` runs the library on concrete messages.
- `app/` is the program around it: the RTSP sessions, Kafka, MongoDB, the
  HTTP interface, the edge device (`MODE = 1`) and the floating-point
  rectangle of each object.
