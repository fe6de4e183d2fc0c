use vstd::prelude::*;

pub mod digits;
pub mod timestamp;
pub mod settings;
pub mod client;
pub mod models;
pub mod callback;

pub use settings::{DatabaseSettings, MpesaSettings, Settings};

verus! {

} // verus!
