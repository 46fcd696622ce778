//! Game-controller to RC-link bridge: the CRSF wire codec, the channel
//! mapping pipeline and the decisions of the fixed-rate transport loop.

pub mod crsf;
pub mod error;
pub mod controller;
pub mod transport;
pub mod serial;
pub mod config;
