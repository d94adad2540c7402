//! A small record service: records with attached annotations, identifier and
//! timestamp codecs, and the decisions that turn store outcomes into replies.
pub mod codec;
pub mod response;
pub mod tweet;
pub mod service;
