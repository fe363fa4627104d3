//! Client library for a CDN provider's management API and its file-storage
//! endpoints: credentials, endpoint selection, request planning, response
//! classification and the path rules used for uploads, downloads and deletes.

pub mod errors;
pub mod text;
pub mod models;
pub mod environment;
pub mod json;
pub mod client;
