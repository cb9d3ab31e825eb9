//! Client-side core for the pCloud HTTP API.
//!
//! The crate models the three concerns every pCloud operation shares:
//! normalising heterogeneous file/folder references into canonical
//! descriptors, building validated request plans from fluent builders, and
//! managing the shared, revocable login session.  Transport (HTTP, JSON,
//! multipart) is left to the embedding application.

pub mod file_ops;
pub mod folder_ops;
pub mod pcloud_client;
pub mod pcloud_model;
pub mod request;
