//! Typed, transport-free core of a client for the KSoft.Si REST API.
//!
//! The endpoint groups turn the arguments of a call into a prepared
//! request, the dispatcher turns what a transport observed for a request
//! into a classified result, and the poller decides what a polling loop
//! does with each reply. Sending, reading and sleeping are left to the
//! transport that drives them.

pub mod bans;
pub mod client;
pub mod dispatch;
pub mod error;
pub mod images;
pub mod ipv4;
pub mod kumo;
pub mod model;
pub mod music;
pub mod poller;
pub mod prelude;
pub mod request;
pub mod text;
pub mod violation;

pub use client::{Client, Transport};
pub use dispatch::{
    disposition, make_request, ApiResponse, Disposition, HttpResult, Payload, Response,
};
pub use error::HttpError;
pub use poller::{EventHandler, Poller};
pub use request::{endpoint, PreparedRequest};
pub use violation::Violation;
