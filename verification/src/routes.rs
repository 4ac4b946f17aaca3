//! What the two kinds of request do: uploads take objects in, reads hand
//! them out.

pub mod reader;
pub mod uploads;
