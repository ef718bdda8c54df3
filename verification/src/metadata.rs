use vstd::prelude::*;

verus! {

/// A point in camera coordinates.
pub struct XY {
    pub x: u32,
    pub y: u32,
}

/// The bounding rectangle of a detected object, with its centre of gravity
/// and the frame's translate offset.
pub struct Rect {
    pub top: u32,
    pub bottom: u32,
    pub left: u32,
    pub right: u32,
    pub center: XY,
    pub translate: XY,
}

/// The class of a detected object and how likely it is.
pub struct MetadataClass {
    pub class_type: String,
    pub likelihood: String,
}

/// What the server reports of one detected object.
///
/// Every attribute code is `-1` while unknown; colour lists are empty while
/// unknown.
#[allow(non_snake_case)]
pub struct Metadata {
    pub faceId: String,
    pub fcltId: String,
    pub rect: Rect,
    pub class: MetadataClass,
    pub currentTime: u64,
    pub detectType: i32,
    pub genderType: i32,
    pub hatDetection: i32,
    pub bagDetection: i32,
    pub topLength: i32,
    pub bottomLength: i32,
    pub topColor: Vec<u32>,
    pub bottomColor: Vec<u32>,
    pub faceGenderType: i32,
    pub ageType: i32,
    pub hat: i32,
    pub mask: i32,
    pub opticals: i32,
    pub vehicleType: i32,
    pub vehicleColor: Vec<u32>,
}

impl Rect {
    /// The rectangle whose coordinates are all zero.
    pub open spec fn is_zero(&self) -> bool {
        &&& self.top == 0 && self.bottom == 0 && self.left == 0 && self.right == 0
        &&& self.center.x == 0 && self.center.y == 0
        &&& self.translate.x == 0 && self.translate.y == 0
    }
}

impl Metadata {
    /// The metadata of an object of which nothing is known yet.
    pub open spec fn is_blank(&self) -> bool {
        &&& self.fcltId@ == Seq::<char>::empty()
        &&& self.is_blank_but_facility()
    }

    /// Blank but perhaps for the facility it is stamped with.
    pub open spec fn is_blank_but_facility(&self) -> bool {
        &&& self.faceId@ == Seq::<char>::empty()
        &&& self.rect.is_zero()
        &&& self.class.class_type@ == Seq::<char>::empty()
        &&& self.class.likelihood@ == Seq::<char>::empty()
        &&& self.currentTime == 0
        &&& self.detectType == -1
        &&& self.genderType == -1
        &&& self.hatDetection == -1
        &&& self.bagDetection == -1
        &&& self.topLength == -1
        &&& self.bottomLength == -1
        &&& self.topColor@ == Seq::<u32>::empty()
        &&& self.bottomColor@ == Seq::<u32>::empty()
        &&& self.faceGenderType == -1
        &&& self.ageType == -1
        &&& self.hat == -1
        &&& self.mask == -1
        &&& self.opticals == -1
        &&& self.vehicleType == -1
        &&& self.vehicleColor@ == Seq::<u32>::empty()
    }

    /// The metadata of an object of which nothing is known yet: empty texts,
    /// a zero rectangle, time zero, every code `-1` and no colours.
    pub fn new() -> (m: Metadata)
        ensures
            m.is_blank(),
    {
        Metadata {
            faceId: String::new(),
            fcltId: String::new(),
            rect: Rect {
                top: 0,
                bottom: 0,
                left: 0,
                right: 0,
                center: XY { x: 0, y: 0 },
                translate: XY { x: 0, y: 0 },
            },
            class: MetadataClass { class_type: String::new(), likelihood: String::new() },
            currentTime: 0,
            detectType: -1,
            genderType: -1,
            hatDetection: -1,
            bagDetection: -1,
            topLength: -1,
            bottomLength: -1,
            topColor: Vec::new(),
            bottomColor: Vec::new(),
            faceGenderType: -1,
            ageType: -1,
            hat: -1,
            mask: -1,
            opticals: -1,
            vehicleType: -1,
            vehicleColor: Vec::new(),
        }
    }
}

} // verus!
