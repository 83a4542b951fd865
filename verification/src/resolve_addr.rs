//! The failure of resolving a network address.

use vstd::prelude::*;
use crate::causes::{IoCause, IoCauseView};

verus! {

/// An address could not be resolved: it was not an address at all, or the
/// lookup failed.
#[derive(Debug)]
pub enum ResolveAddrError {
    Syntax,
    Resolution(IoCause),
}

pub enum ResolveAddrErrorView {
    Syntax,
    Resolution(IoCauseView),
}

impl View for ResolveAddrError {
    type V = ResolveAddrErrorView;

    open spec fn view(&self) -> ResolveAddrErrorView {
        match self {
            ResolveAddrError::Syntax => ResolveAddrErrorView::Syntax,
            ResolveAddrError::Resolution(cause) => ResolveAddrErrorView::Resolution(cause@),
        }
    }
}

} // verus!
