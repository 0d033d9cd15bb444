//! Records of the API: what the service sends back, and the payloads that
//! some calls send to it.

pub mod bans;
pub mod error;
pub mod images;
pub mod kumo;
pub mod music;

pub use error::{BanError, ImageError, KumoError, MusicError};
