//! The failure of a module-resolution mapping.

use vstd::prelude::*;

verus! {

/// A module specifier could not be mapped.
#[derive(Debug)]
pub struct ImportMapError {
    pub msg: String,
}

impl View for ImportMapError {
    type V = Seq<char>;

    open spec fn view(&self) -> Seq<char> {
        self.msg@
    }
}

impl ImportMapError {
    pub fn new(msg: &str) -> (err: ImportMapError)
        ensures
            err@ == msg@,
    {
        ImportMapError { msg: msg.to_owned() }
    }
}

} // verus!
