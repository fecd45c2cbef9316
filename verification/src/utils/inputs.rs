use vstd::prelude::*;

use crate::models::commons::{AreaKind, InitUser};

verus! {

/// A stroke event of the shared drawing board.
#[derive(PartialEq, Eq, Structural, Clone, Copy, Debug)]
pub enum PaintAction {
    Down,
    Move,
    Up,
}

/// The host's messages to clients that carry neither media nor drawing
/// coordinates.
#[derive(PartialEq, Debug)]
pub enum HostNotice {
    Init { message: InitUser },
    HostToHost { message: String, area_kind: AreaKind },
    HostToClient { message: String, area_kind: AreaKind },
    HostIsScreenShare { message: bool },
    HostSwitchArea { message: AreaKind },
    HostSWitchSelfVideo { message: bool },
    OpenPaint,
    ClosePaint,
    OnCummunication { message: bool },
}

/// A client's messages to the host that carry no media.
#[derive(PartialEq, Debug)]
pub enum ClientNotice {
    InitClient { message: InitUser },
    ClientSwitchVideo { message: bool },
    ClientToClient { message: String, area_kind: AreaKind },
    ClientSwitchArea { message: AreaKind },
}

} // verus!
