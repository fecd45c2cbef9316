use vstd::prelude::*;

use crate::models::commons::{AreaKind, TextAreaProps};

verus! {

/// The host's own areas and whether participants see each other.
#[derive(PartialEq, Clone, Debug)]
pub struct HostPorps {
    pub host_editor_content: String,
    pub host_area_content: TextAreaProps,
    pub host_area_kind: AreaKind,
    pub is_communication: bool,
}

impl HostPorps {
    /// Empty areas, the editor in use, participants seeing each other.
    pub fn new() -> (r: Self)
        ensures
            r.host_editor_content@ == Seq::<char>::empty(),
            r.host_area_content.content@ == Seq::<char>::empty(),
            r.host_area_content.placeholder@ == Seq::<char>::empty(),
            r.host_area_content.is_disabled,
            r.host_area_kind == AreaKind::Editor,
            r.is_communication,
    {
        Self {
            host_editor_content: String::new(),
            host_area_content: TextAreaProps::new(),
            host_area_kind: AreaKind::Editor,
            is_communication: true,
        }
    }

    pub fn set_host_area_kind(&mut self, host_area_kind: AreaKind)
        ensures
            *final(self) == (HostPorps { host_area_kind, ..*old(self) }),
    {
        self.host_area_kind = host_area_kind;
    }

    pub fn set_editor_content(&mut self, content: String)
        ensures
            *final(self) == (HostPorps { host_editor_content: content, ..*old(self) }),
    {
        self.host_editor_content = content;
    }

    pub fn set_text_area_content(&mut self, content: String)
        ensures
            *final(self) == (HostPorps {
                host_area_content: TextAreaProps { content, ..old(self).host_area_content },
                ..*old(self)
            }),
    {
        self.host_area_content.set_content(content);
    }

    /// Sets whether participants see each other.
    pub fn is_communication(&mut self, is_communication: bool)
        ensures
            *final(self) == (HostPorps { is_communication, ..*old(self) }),
    {
        self.is_communication = is_communication;
    }

    /// Sets whether participants see each other.
    pub fn set_communication(&mut self, is_communication: bool)
        ensures
            *final(self) == (HostPorps { is_communication, ..*old(self) }),
    {
        self.is_communication = is_communication;
    }

    /// Flips whether participants see each other and returns the new value.
    pub fn switch_communication(&mut self) -> (r: bool)
        ensures
            r == !old(self).is_communication,
            *final(self) == (HostPorps { is_communication: r, ..*old(self) }),
    {
        self.is_communication = !self.is_communication;
        self.is_communication
    }
}

/// Switching communication twice gives back the props as they were, and the two
/// calls report opposite values.
pub proof fn lemma_switch_communication_twice(p0: HostPorps, p1: HostPorps, r1: bool, p2: HostPorps, r2: bool)
    requires
        r1 == !p0.is_communication,
        p1 == (HostPorps { is_communication: r1, ..p0 }),
        r2 == !p1.is_communication,
        p2 == (HostPorps { is_communication: r2, ..p1 }),
    ensures
        p2 == p0,
        r2 == !r1,
{
}

} // verus!
