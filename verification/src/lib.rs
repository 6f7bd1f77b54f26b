//! A client for the PassioGo transit-tracking API: the requests it sends and
//! the records it reads out of the loosely typed JSON that comes back.

pub mod alerts;
pub mod client;
pub mod envelope;
pub mod float_text;
pub mod helpers;
pub mod json;
pub mod render;
pub mod routes;
pub mod stops;
pub mod systems;
pub mod text;
pub mod types;
pub mod vehicles;

pub use client::{ApiRequest, PassioGoClient};
