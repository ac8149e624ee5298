//! Object executor: a simulated detector that produces a variable-count list
//! of classified bounding boxes from a fixed label vocabulary.

use vstd::prelude::*;
use crate::numeric::TIMESTAMP_LIMIT;
use crate::runtime::{now_unix_millis, random_below};

verus! {

/// Smallest per-mille confidence attached to a detected object.
pub const OBJECT_CONFIDENCE_BASE: u64 = 700;

/// Width of the simulated uncertainty band above the base confidence.
pub const OBJECT_CONFIDENCE_SPREAD: u64 = 300;

/// A box position and size, in milli units.
pub struct BoundingBox {
    pub x: i64,
    pub y: i64,
    pub width: i64,
    pub height: i64,
}

pub struct DetectedObject {
    pub id: String,
    pub class_name: String,
    /// Per-mille classification confidence.
    pub confidence: u64,
    pub bounding_box: BoundingBox,
}

pub struct ObjectDetectionInput {
    pub frame_id: String,
    pub timestamp: i64,
    /// Asks the simulation for a busier frame.
    pub simulate_complex: bool,
}

impl ObjectDetectionInput {
    pub open spec fn wf(&self) -> bool {
        -TIMESTAMP_LIMIT <= self.timestamp <= TIMESTAMP_LIMIT
    }
}

pub struct ObjectDetectionOutput {
    pub frame_id: String,
    pub objects: Vec<DetectedObject>,
    pub processing_time_ms: i64,
}

/// The fixed label vocabulary, in detector order.
pub open spec fn spec_object_classes() -> Seq<Seq<char>> {
    seq![
        "car"@,
        "truck"@,
        "pedestrian"@,
        "bicycle"@,
        "motorcycle"@,
        "bus"@,
        "traffic_light"@,
        "stop_sign"@,
    ]
}

/// Identifier of the `i`-th detected object within one frame.
pub open spec fn spec_obj_id(i: int) -> Seq<char> {
    if i == 0 {
        "obj_0"@
    } else if i == 1 {
        "obj_1"@
    } else if i == 2 {
        "obj_2"@
    } else if i == 3 {
        "obj_3"@
    } else if i == 4 {
        "obj_4"@
    } else if i == 5 {
        "obj_5"@
    } else if i == 6 {
        "obj_6"@
    } else if i == 7 {
        "obj_7"@
    } else if i == 8 {
        "obj_8"@
    } else if i == 9 {
        "obj_9"@
    } else if i == 10 {
        "obj_10"@
    } else if i == 11 {
        "obj_11"@
    } else if i == 12 {
        "obj_12"@
    } else if i == 13 {
        "obj_13"@
    } else {
        "obj_14"@
    }
}

fn obj_id(i: usize) -> (r: String)
    requires
        i < 15,
    ensures
        r@ == spec_obj_id(i as int),
{
    let tag: &str = match i {
        0 => "obj_0",
        1 => "obj_1",
        2 => "obj_2",
        3 => "obj_3",
        4 => "obj_4",
        5 => "obj_5",
        6 => "obj_6",
        7 => "obj_7",
        8 => "obj_8",
        9 => "obj_9",
        10 => "obj_10",
        11 => "obj_11",
        12 => "obj_12",
        13 => "obj_13",
        _ => "obj_14",
    };
    tag.to_owned()
}

/// What the object executor owes for `input`: the frame identifier echoed; a
/// simulated object count inside the band the complexity flag selects; and
/// every object carrying a sequential identifier, a label from the fixed
/// vocabulary, a bounded confidence and a bounded box.  The processing time
/// is a clock reading and is not constrained.
pub open spec fn objects_output_ok(input: ObjectDetectionInput, out: ObjectDetectionOutput) -> bool {
    &&& out.frame_id@ == input.frame_id@
    &&& out.processing_time_ms >= 0
    &&& if input.simulate_complex {
        5 <= out.objects@.len() < 15
    } else {
        2 <= out.objects@.len() < 8
    }
    &&& forall|i: int|
        0 <= i < out.objects@.len() ==> {
            let obj = #[trigger] out.objects@[i];
            &&& obj.id@ == spec_obj_id(i)
            &&& exists|k: int|
                0 <= k < spec_object_classes().len() && obj.class_name@ == spec_object_classes()[k]
            &&& OBJECT_CONFIDENCE_BASE <= obj.confidence <= OBJECT_CONFIDENCE_BASE
                + OBJECT_CONFIDENCE_SPREAD
            &&& -50_000 <= obj.bounding_box.x < 50_000
            &&& -50_000 <= obj.bounding_box.y < 50_000
            &&& 5_000 <= obj.bounding_box.width < 20_000
            &&& 5_000 <= obj.bounding_box.height < 20_000
        }
}

/// Simulated detector standing in for a learned vision model; it owns the
/// label vocabulary.
pub struct ObjectDetector {
    object_classes: Vec<String>,
}

impl ObjectDetector {
    pub closed spec fn wf(&self) -> bool {
        &&& self.object_classes@.len() == spec_object_classes().len()
        &&& forall|i: int|
            0 <= i < self.object_classes@.len() ==> (#[trigger] self.object_classes@[i])@
                == spec_object_classes()[i]
    }

    pub fn new() -> (r: Self)
        ensures
            r.wf(),
    {
        let mut object_classes: Vec<String> = Vec::new();
        object_classes.push("car".to_owned());
        object_classes.push("truck".to_owned());
        object_classes.push("pedestrian".to_owned());
        object_classes.push("bicycle".to_owned());
        object_classes.push("motorcycle".to_owned());
        object_classes.push("bus".to_owned());
        object_classes.push("traffic_light".to_owned());
        object_classes.push("stop_sign".to_owned());
        ObjectDetector { object_classes }
    }

    pub fn detect(&self, input: &ObjectDetectionInput) -> (out: ObjectDetectionOutput)
        requires
            self.wf(),
            input.wf(),
        ensures
            objects_output_ok(*input, out),
    {
        let started_at = now_unix_millis();
        let num_objects: usize = if input.simulate_complex {
            (5 + random_below(10)) as usize
        } else {
            (2 + random_below(6)) as usize
        };
        let mut objects: Vec<DetectedObject> = Vec::new();
        let mut i: usize = 0;
        while i < num_objects
            invariant
                self.wf(),
                i <= num_objects,
                num_objects < 15,
                objects@.len() == i,
                forall|j: int|
                    0 <= j < i ==> {
                        let obj = #[trigger] objects@[j];
                        &&& obj.id@ == spec_obj_id(j)
                        &&& exists|k: int|
                            0 <= k < spec_object_classes().len() && obj.class_name@
                                == spec_object_classes()[k]
                        &&& OBJECT_CONFIDENCE_BASE <= obj.confidence <= OBJECT_CONFIDENCE_BASE
                            + OBJECT_CONFIDENCE_SPREAD
                        &&& -50_000 <= obj.bounding_box.x < 50_000
                        &&& -50_000 <= obj.bounding_box.y < 50_000
                        &&& 5_000 <= obj.bounding_box.width < 20_000
                        &&& 5_000 <= obj.bounding_box.height < 20_000
                    },
            decreases num_objects - i,
        {
            let class_idx = random_below(8) as usize;
            let class_name = self.object_classes[class_idx].clone();
            proof {
                assert(class_name@ == spec_object_classes()[class_idx as int]);
            }
            let confidence = OBJECT_CONFIDENCE_BASE + random_below(OBJECT_CONFIDENCE_SPREAD + 1);
            let bounding_box = BoundingBox {
                x: (random_below(100_000) as i64) - 50_000,
                y: (random_below(100_000) as i64) - 50_000,
                width: (random_below(15_000) as i64) + 5_000,
                height: (random_below(15_000) as i64) + 5_000,
            };
            let obj = DetectedObject { id: obj_id(i), class_name, confidence, bounding_box };
            objects.push(obj);
            i = i + 1;
        }
        let finished_at = now_unix_millis();
        let processing_time_ms: i64 = match finished_at.checked_sub(started_at) {
            Some(elapsed) => if elapsed >= 0 {
                elapsed
            } else {
                0
            },
            None => 0,
        };
        ObjectDetectionOutput { frame_id: input.frame_id.clone(), objects, processing_time_ms }
    }
}

} // verus!
