use vstd::prelude::*;

pub mod text;
pub mod keyed;
pub mod media;
pub mod status;
pub mod ipc;
pub mod mpris;
pub mod web;
