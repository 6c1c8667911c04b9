//! An interpreter for block-based projects: block graphs built from saved records, block
//! execution as steps that publish messages and wait, a broadcast bus, a debug barrier and
//! the scheduler's decisions.

pub mod block;
pub mod broadcaster;
pub mod builder;
pub mod color;
pub mod controller;
pub mod error;
pub mod exec;
pub mod number;
pub mod pen;
pub mod savefile;
pub mod sensing;
pub mod sprite;
pub mod sprite_runtime;
pub mod value;
pub mod variables;
pub mod vm;
