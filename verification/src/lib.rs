//! The map rotation of a battle royale game, read from the rotation page of a statistics
//! site: which maps are in play in a region at a given moment, and the message that tells it.
pub mod json;
pub mod laws;
pub mod message;
pub mod moment;
pub mod page;
pub mod rotation;
pub mod text;

pub use json::{Json, JsonNumber};
pub use message::{get_rotation, prettify_rotation, pretty_name, request_notice, rotation_reply};
pub use moment::{Moment, TimeOfDay, Weekday};
pub use page::{extract_json_from_script, find_rotation_script, parse_rotation, parse_rotation_at};
pub use rotation::{
    extract_actual_data_from_json, ActualRotationData, GetRotationError, Probability, Rotation,
};
