use vstd::prelude::*;

verus! {

/// Where a remote participant's video element lives on the page.
#[derive(PartialEq, Eq, Structural, Clone, Copy, Debug)]
pub enum VideoElementKind {
    HostBox,
    ClentBox,
    ReadyId,
    ScreenBox,
}

/// The state a browser codec reports.
#[derive(PartialEq, Eq, Structural, Clone, Copy, Debug)]
pub enum CodecState {
    Unconfigured,
    Configured,
    Closed,
    Unknown,
}

} // verus!
