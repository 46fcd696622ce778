//! Controller input: raw input events, the controller state they build,
//! and the mapping of that state to RC channels.

pub mod mapper;
pub mod channels;
pub mod channel_mapper;
pub mod ps5;
