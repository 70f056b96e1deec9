use vstd::prelude::*;

verus! {

/// The state shared by every command invocation. It holds nothing yet; it
/// is where per-bot state goes.
#[derive(Debug)]
pub struct Data {}

impl Data {
    pub fn new() -> (d: Data) {
        Data {}
    }
}

} // verus!
