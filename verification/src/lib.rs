//! Tagging, clipping and recombining personal video files.
//!
//! The library holds the rules of the clip-composition pipeline: how a probed
//! clip's geometry is normalised, which filter graph and encoder arguments bring
//! a clip onto the common canvas, and in which order the external encoder
//! processes may run. The program around it runs the processes and serves
//! the requests; the library decides. Every function states what it does in
//! a contract that Verus proves.

pub mod batch;
pub mod catalog;
pub mod common;
pub mod cook;
pub mod defs;
pub mod error;
pub mod filter_text;
pub mod fit;
pub mod fmt;
pub mod handlers;
pub mod html;
pub mod make_filter;
pub mod numbers;
pub mod pipeline;
pub mod probe;
pub mod register;
pub mod response;
pub mod rotation;
pub mod routes;
pub mod serve;
pub mod text;
pub mod timeline;
pub mod util;
