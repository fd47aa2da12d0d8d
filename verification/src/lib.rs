//! Attribute table of a Bluetooth Low Energy Environmental Sensing Service,
//! with the small decision logic of the micro:bit LED matrix and buttons.
//!
//! The table answers the three questions that an ATT server asks of an
//! attribute provider: which attributes lie in a handle range, whether an
//! attribute type starts a group, and where the group of a handle ends. Its
//! one live value, the temperature reading, is overwritten in place.

pub mod attribute;
pub mod button;
pub mod cursor;
pub mod ess;
pub mod handle;
pub mod matrix;
pub mod table;
pub mod uuid;

pub use crate::attribute::Attribute;
pub use crate::button::Button;
pub use crate::cursor::Cursor;
pub use crate::ess::{EnvironmentSensingService, LengthMismatch, Sensor};
pub use crate::handle::{Handle, HandleRange};
pub use crate::matrix::{LedMatrix, Level};
pub use crate::uuid::AttUuid;
