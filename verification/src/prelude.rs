//! A convenience module appropriate for itemized imports of the names most
//! callers need.

pub use crate::client::{ApiRequest, IdFilter, SubjectFilter};
pub use crate::error::{Error, WanikaniError};
pub use crate::resource::{Collection, Resource, ResourceType};
