use vstd::prelude::*;

pub mod api;
pub mod capture;
pub mod errors;
pub mod float;
pub mod json;
pub mod logging;
pub mod settings;
pub mod text;
pub mod translation;
pub mod window;
pub mod words;

verus! {

/// The platform whose conventions a message follows.
#[derive(Clone, Copy, PartialEq, Eq, Structural, Debug)]
pub enum Platform {
    MacOs,
    Other,
}

} // verus!
