use vstd::prelude::*;

pub mod app;
pub mod config;
pub mod context;
pub mod error;
pub mod event;
pub mod folder;
pub mod imageview;
pub mod message;
pub mod path;
pub mod registry;
pub mod text;
pub mod util;

verus! {

} // verus!
