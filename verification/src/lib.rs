//! A typed boundary around a point-to-point irregular-terrain propagation
//! model: discrete parameters with their integer codes, the flat encoding
//! of a terrain profile, the argument list the model is called with, the
//! decoding of its status codes, and the parsing of coordinate text.

pub mod enums;
pub mod error;
pub mod geopoint;
pub mod p2p;
pub mod profile;

pub use enums::{Climate, Mode, ModeVariability, Polarization, SittingCriteria, Variability};
pub use error::{ItmErrCode, Status};
pub use geopoint::{split_fields, Fields, GeoPoint, ParseError};
pub use p2p::{p2p, P2PCall, P2PRes, HZ_PER_MHZ};
pub use profile::{encode_profile, Quantity};
