//! Small helpers that belong to no stage of the pipeline.

pub mod state_service;

use vstd::prelude::*;

verus! {

/// Stands in for a value that is left out of diagnostic output.
#[derive(Clone, Copy, PartialEq, Eq)]
pub struct OmitDebug;

impl OmitDebug {
    /// The text shown in place of the value.
    pub open spec fn spec_text() -> Seq<char> {
        "[omitted]"@
    }

    /// The text shown in place of the value.
    pub fn text(&self) -> (text: String)
        ensures
            text@ == Self::spec_text(),
    {
        "[omitted]".to_owned()
    }
}

} // verus!
