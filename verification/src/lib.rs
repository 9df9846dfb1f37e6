//! Request building for a generative-AI provider's REST interface.
//!
//! The crate holds the part of an API client that can be reasoned about:
//! the closed vocabularies and their wire names, the parameter objects and
//! their builders, the routes of each endpoint, the classification of
//! responses and the plan for saving audio to disk. Sending bytes over the
//! network and touching the file system is left to the caller.

pub mod v1;
