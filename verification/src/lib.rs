//! Browser automation over the DevTools protocol: the logic of pages,
//! frames, targets, network, input, locators and plugins, with contracts
//! that Verus proves.  The I/O around it lives outside this library.
use vstd::prelude::*;

pub mod accessibility;
pub mod browser;
pub mod cookie;
pub mod coverage;
pub mod dialog;
pub mod element;
pub mod error;
pub mod events;
pub mod file_chooser;
pub mod frame;
pub mod frame_handle;
pub mod graph;
pub mod http;
pub mod input;
pub mod json;
pub mod keyboard_layout;
pub mod keyed;
pub mod laws;
pub mod lifecycle;
pub mod locator;
pub mod network;
pub mod page;
pub mod plugin;
pub mod plugins;
pub mod query;
pub mod screenshot;
pub mod target;
pub mod text;
pub mod tracing;
pub mod types;
pub mod wait;
pub mod worker;

verus! {

} // verus!
