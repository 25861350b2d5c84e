//! A typed client library for the WaniKani v2 REST API.
//!
//! The library models the API's resource types (assignments, subjects, study
//! materials, review statistics, level progressions, resets, user profile,
//! voice actors, summary reports), builds the request URLs with their filter
//! query parameters, encodes and decodes the JSON bodies into a generic
//! resource/collection envelope, and classifies HTTP error responses into a
//! typed error taxonomy including rate-limit signaling.

use vstd::prelude::*;

pub mod assignment;
pub mod client;
pub mod codec;
pub mod error;
pub mod level_progression;
pub mod resource;
pub mod review_statistic;
pub mod study_material;
pub mod summary;
pub mod subject;
pub mod voice_actor;
pub mod json;
pub mod num;
pub mod prelude;
pub mod query;
pub mod reset;
pub mod timestamp;
pub mod user;

pub use error::{Error, WanikaniError};
pub use resource::{Collection, Pages, Resource, ResourceCommon, ResourceType};
pub use timestamp::Timestamp;

verus! {

/// Expressive type for IDs
pub type Id = u64;

/// The version of the API supported by this library
pub const API_VERSION: &'static str = "20170710";

/// The base URL of the WaniKani V2 API
pub const URL_BASE: &'static str = "https://api.wanikani.com/v2";

} // verus!
