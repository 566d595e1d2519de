use vstd::prelude::*;

pub mod channel;
pub mod config;
pub mod image;
pub mod pixel;
pub mod schedule;
pub mod writer;
