//! Value types of the remote API that the verified logic reads or carries.

pub mod apikey;
pub mod bunnyaiimageblueprint;
pub mod edgerule;
pub mod hostname;
pub mod optimizerclass;
pub mod pullzone;
pub mod storageendpoint;
pub mod storagezone;
pub mod storagezonestatistics;
pub mod trigger;
