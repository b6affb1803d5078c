//! Verified core of an OCPP 1.6 central system for a single wallbox: the
//! message framing, the charge point state, the request handlers, the
//! smart charging decisions and the HTTP digest authentication used to talk
//! to a Fronius inverter.
pub mod text;
pub mod types;
pub mod ocpp_types;
pub mod messages;
pub mod builders;
pub mod charge_point_state;
pub mod handlers;
pub mod requests;
pub mod central_system;
pub mod meter_values;
pub mod hooks;
pub mod fronius;
pub mod digest_auth;
pub mod awattar;
pub mod laws;
