//! Locates the native debugger backend, fetching it from the extension registry
//! when it is missing, and the configuration handed to it.
use vstd::prelude::*;

pub mod cache;
pub mod config;
pub mod locator;
pub mod options;
pub mod platform;
pub mod release;
pub mod remover;

verus! {

} // verus!
