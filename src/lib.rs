//! A minimal file-drop service: clients upload a file under a chosen name and
//! get back a retrieval URL. This library holds the configuration resolution,
//! the storage-name scheme and the request decisions, each with its contract;
//! the network and filesystem plumbing lives outside it.
pub mod decimal;
pub mod handlers;
pub mod naming;
pub mod settings;
