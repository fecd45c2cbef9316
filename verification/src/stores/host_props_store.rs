use std::collections::HashMap;

use vstd::prelude::*;

use crate::models::commons::{AreaKind, InitUser, TextAreaProps};
use crate::models::host::HostPorps;
use crate::stores::effects::Effect;
use crate::utils::inputs::HostNotice;

verus! {

broadcast use vstd::std_specs::hash::group_hash_axioms;

/// The host area: on the host its own areas, on a client the host's areas
/// as last received; and the texts drawn on, by board.
pub struct HostPropsStore {
    host_props: HostPorps,
    paints_f: HashMap<i8, String>,
}

/// What the host area holds.
pub struct HostPropsView {
    pub host_props: HostPorps,
    pub paints_f: Map<i8, String>,
}

impl View for HostPropsStore {
    type V = HostPropsView;

    closed spec fn view(&self) -> HostPropsView {
        HostPropsView { host_props: self.host_props, paints_f: self.paints_f@ }
    }
}

impl Default for HostPropsStore {
    /// Empty areas with the editor in use, participants seeing each other,
    /// nothing drawn on.
    fn default() -> (r: Self)
        ensures
            r@.host_props.host_editor_content@ == Seq::<char>::empty(),
            r@.host_props.host_area_content.content@ == Seq::<char>::empty(),
            r@.host_props.host_area_content.placeholder@ == Seq::<char>::empty(),
            r@.host_props.host_area_content.is_disabled,
            r@.host_props.host_area_kind == AreaKind::Editor,
            r@.host_props.is_communication,
            r@.paints_f == Map::<i8, String>::empty(),
    {
        Self { host_props: HostPorps::new(), paints_f: HashMap::new() }
    }
}

impl HostPropsStore {
    pub fn get_host_props(&self) -> (r: &HostPorps)
        ensures
            *r == self@.host_props,
    {
        &self.host_props
    }

    pub fn get_mut_host_props(&mut self) -> (r: &mut HostPorps)
        ensures
            *r == old(self)@.host_props,
            final(self)@ == (HostPropsView { host_props: *final(r), ..old(self)@ }),
    {
        &mut self.host_props
    }

    pub fn get_mut_paints_f(&mut self) -> (r: &mut HashMap<i8, String>)
        ensures
            r@ == old(self)@.paints_f,
            final(self)@ == (HostPropsView { paints_f: final(r)@, ..old(self)@ }),
    {
        &mut self.paints_f
    }

    pub fn get_paints_f(&self) -> (r: &HashMap<i8, String>)
        ensures
            r@ == self@.paints_f,
    {
        &self.paints_f
    }
}

/// The host's own actions on its area.
#[derive(PartialEq, Debug)]
pub enum HostHostMsg {
    AddClient(u64),
    HostUpdateValue(String),
    /// The host typed in its text area; it carries the new text.
    HostTextAreaInput(String),
    SwitchHostArea(AreaKind),
    OpenPaint,
    ClosePaint,
    OnCummunication,
}

/// What a client learns of the host's area.
#[derive(PartialEq, Debug)]
pub enum HostPropsMsg {
    InitHost(InitUser),
    HostSwitchArea(AreaKind),
    HostToHost { message: String, area_kind: AreaKind },
    OpenPaint,
}

/// `p` with its text area's content replaced.
pub open spec fn host_with_text(p: HostPorps, content: String) -> HostPorps {
    HostPorps { host_area_content: TextAreaProps { content, ..p.host_area_content }, ..p }
}

/// `p` with the area in use given `content`.
pub open spec fn host_with_current(p: HostPorps, content: String) -> HostPorps {
    match p.host_area_kind {
        AreaKind::Editor => HostPorps { host_editor_content: content, ..p },
        AreaKind::TextArea => host_with_text(p, content),
    }
}

/// The text of the area in use.
pub open spec fn current_text(p: HostPorps) -> String {
    match p.host_area_kind {
        AreaKind::Editor => p.host_editor_content,
        AreaKind::TextArea => p.host_area_content.content,
    }
}

/// The host area `post` and effects `r` after the host's own action `msg` on `pre`.
pub open spec fn host_host_post(pre: HostPropsView, msg: HostHostMsg, post: HostPropsView, r: Seq<Effect>) -> bool {
    let p = pre.host_props;
    match msg {
        HostHostMsg::AddClient(user_id) => post == pre && r == seq![
            Effect::SendToUser(
                user_id,
                HostNotice::Init {
                    message: InitUser {
                        editor_content: p.host_editor_content,
                        text_area_content: p.host_area_content.content,
                        area_kind: p.host_area_kind,
                        is_communication: p.is_communication,
                    },
                },
            ),
        ],
        HostHostMsg::HostUpdateValue(content) => post == (HostPropsView {
            host_props: host_with_current(p, content),
            ..pre
        }) && r == seq![
            Effect::SendToAll(HostNotice::HostToHost { message: content, area_kind: p.host_area_kind }),
        ],
        HostHostMsg::HostTextAreaInput(content) => post == pre && r == seq![
            Effect::HostHost(HostHostMsg::HostUpdateValue(content)),
        ],
        HostHostMsg::SwitchHostArea(area_kind) => post == (HostPropsView {
            host_props: HostPorps { host_area_kind: area_kind, ..p },
            ..pre
        }) && r == seq![Effect::SendToAll(HostNotice::HostSwitchArea { message: area_kind })],
        HostHostMsg::OpenPaint => post == (HostPropsView {
            paints_f: pre.paints_f.insert(1, current_text(p)),
            ..pre
        }) && r == seq![Effect::SendToAll(HostNotice::OpenPaint)],
        HostHostMsg::ClosePaint => post == pre && r == seq![
            Effect::RemoveDrawCanvas,
            Effect::SendToAll(HostNotice::ClosePaint),
        ],
        HostHostMsg::OnCummunication => post == (HostPropsView {
            host_props: HostPorps { is_communication: !p.is_communication, ..p },
            ..pre
        }) && r == seq![
            Effect::SendToAll(HostNotice::OnCummunication { message: !p.is_communication }),
        ],
    }
}

/// The host area `post` and effects `r`, on a client, after `msg` on `pre`.
pub open spec fn host_props_post(pre: HostPropsView, msg: HostPropsMsg, post: HostPropsView, r: Seq<Effect>) -> bool {
    let p = pre.host_props;
    match msg {
        HostPropsMsg::InitHost(user) => r == Seq::<Effect>::empty() && post == (HostPropsView {
            host_props: HostPorps {
                host_editor_content: user.editor_content,
                host_area_kind: user.area_kind,
                is_communication: user.is_communication,
                ..host_with_text(p, user.text_area_content)
            },
            ..pre
        }),
        HostPropsMsg::HostSwitchArea(area_kind) => r == Seq::<Effect>::empty() && post == (
        HostPropsView { host_props: HostPorps { host_area_kind: area_kind, ..p }, ..pre }),
        HostPropsMsg::HostToHost { message, area_kind } => r == Seq::<Effect>::empty() && post == (
        HostPropsView {
            host_props: match area_kind {
                AreaKind::Editor => HostPorps { host_editor_content: message, ..p },
                AreaKind::TextArea => host_with_text(p, message),
            },
            ..pre
        }),
        HostPropsMsg::OpenPaint => post == pre && r == seq![
            Effect::OpenPaintCanvas {
                key: match p.host_area_kind {
                    AreaKind::Editor => 1,
                    AreaKind::TextArea => 2,
                },
                content: current_text(p),
            },
        ],
    }
}

impl HostHostMsg {
    /// Applies one of the host's own actions to its area.
    pub fn apply(self, store: &mut HostPropsStore) -> (r: Vec<Effect>)
        ensures
            host_host_post(old(store)@, self, final(store)@, r@),
    {
        let mut effects: Vec<Effect> = Vec::new();
        match self {
            HostHostMsg::AddClient(user_id) => {
                let p = &store.host_props;
                let init_user = InitUser {
                    editor_content: p.host_editor_content.clone(),
                    text_area_content: p.host_area_content.content.clone(),
                    area_kind: p.host_area_kind,
                    is_communication: p.is_communication,
                };
                effects.push(Effect::SendToUser(user_id, HostNotice::Init { message: init_user }));
            },
            HostHostMsg::HostUpdateValue(content) => {
                let area_kind = store.host_props.host_area_kind;
                match area_kind {
                    AreaKind::Editor => {
                        store.host_props.set_editor_content(content.clone());
                    },
                    AreaKind::TextArea => {
                        store.host_props.set_text_area_content(content.clone());
                    },
                }
                effects.push(Effect::SendToAll(HostNotice::HostToHost { message: content, area_kind }));
            },
            HostHostMsg::HostTextAreaInput(content) => {
                effects.push(Effect::HostHost(HostHostMsg::HostUpdateValue(content)));
            },
            HostHostMsg::SwitchHostArea(area_kind) => {
                store.host_props.set_host_area_kind(area_kind);
                effects.push(Effect::SendToAll(HostNotice::HostSwitchArea { message: area_kind }));
            },
            HostHostMsg::OpenPaint => {
                let content = match store.host_props.host_area_kind {
                    AreaKind::Editor => store.host_props.host_editor_content.clone(),
                    AreaKind::TextArea => store.host_props.host_area_content.content.clone(),
                };
                store.paints_f.insert(1, content);
                effects.push(Effect::SendToAll(HostNotice::OpenPaint));
            },
            HostHostMsg::ClosePaint => {
                effects.push(Effect::RemoveDrawCanvas);
                effects.push(Effect::SendToAll(HostNotice::ClosePaint));
                assert(effects@ =~= seq![effects@[0], effects@[1]]);
            },
            HostHostMsg::OnCummunication => {
                let is_communication = store.host_props.switch_communication();
                effects.push(Effect::SendToAll(HostNotice::OnCummunication { message: is_communication }));
            },
        }
        effects
    }
}

impl HostPropsMsg {
    /// Applies what a client learns of the host's area.
    pub fn apply(self, store: &mut HostPropsStore) -> (r: Vec<Effect>)
        ensures
            host_props_post(old(store)@, self, final(store)@, r@),
    {
        let mut effects: Vec<Effect> = Vec::new();
        match self {
            HostPropsMsg::InitHost(user) => {
                store.host_props.set_text_area_content(user.text_area_content);
                store.host_props.set_editor_content(user.editor_content);
                store.host_props.set_host_area_kind(user.area_kind);
                store.host_props.set_communication(user.is_communication);
            },
            HostPropsMsg::HostSwitchArea(area_kind) => {
                store.host_props.set_host_area_kind(area_kind);
            },
            HostPropsMsg::HostToHost { message, area_kind } => {
                match area_kind {
                    AreaKind::Editor => {
                        store.host_props.set_editor_content(message);
                    },
                    AreaKind::TextArea => {
                        store.host_props.set_text_area_content(message);
                    },
                }
            },
            HostPropsMsg::OpenPaint => {
                match store.host_props.host_area_kind {
                    AreaKind::Editor => {
                        effects.push(
                            Effect::OpenPaintCanvas {
                                key: 1,
                                content: store.host_props.host_editor_content.clone(),
                            },
                        );
                    },
                    AreaKind::TextArea => {
                        effects.push(
                            Effect::OpenPaintCanvas {
                                key: 2,
                                content: store.host_props.host_area_content.content.clone(),
                            },
                        );
                    },
                }
            },
        }
        effects
    }
}

} // verus!
