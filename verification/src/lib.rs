//! Status probing for Minecraft servers: address parsing, the race of an
//! exchange against its deadline, and the shaping of the two answers. Every
//! function states what it returns, and Verus proves that it does.

pub mod address;
pub mod decimal;
pub mod json;
pub mod probe;
pub mod routes;
pub mod shape;
pub mod status;
pub mod text;
pub mod wire;

pub use crate::address::{parse_address, ProbeTarget, DEFAULT_PORT};
pub use crate::decimal::parse_u16;
pub use crate::probe::{step, Endpoint, ProbeAction, ProbeEvent, ProbeOutcome, ProbeState};
pub use crate::routes::{rocket, Route};
pub use crate::shape::{status, status_json, JsonAnswer, TextAnswer};
pub use crate::status::{
    Response, ServerDescriptionDef, ServerPlayerDef, ServerPlayersDef, ServerVersionDef,
    StatusError, StatusResponseDef,
};
