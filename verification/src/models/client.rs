use vstd::prelude::*;

use crate::models::commons::{AreaKind, TextAreaProps};

verus! {

/// The host's view of the client it is currently working with.
#[derive(PartialEq, Clone, Debug)]
pub struct ClientProps {
    pub client_editor_content: String,
    pub client_text_area: TextAreaProps,
    pub client_id: String,
    pub is_write: bool,
    pub client_area_kind: AreaKind,
}

impl ClientProps {
    /// A client area showing the text area, with the given editor content and
    /// id, an empty disabled text area and nothing written from outside.
    pub fn new(client_content: String, client_id: String) -> (r: Self)
        ensures
            r.client_editor_content == client_content,
            r.client_id == client_id,
            r.client_text_area.content@ == Seq::<char>::empty(),
            r.client_text_area.placeholder@ == Seq::<char>::empty(),
            r.client_text_area.is_disabled,
            !r.is_write,
            r.client_area_kind == AreaKind::TextArea,
    {
        Self {
            client_editor_content: client_content,
            client_text_area: TextAreaProps::new(),
            client_id,
            is_write: false,
            client_area_kind: AreaKind::TextArea,
        }
    }

    pub fn set_editor_content(&mut self, content: String)
        ensures
            *final(self) == (ClientProps { client_editor_content: content, ..*old(self) }),
    {
        self.client_editor_content = content;
    }

    pub fn set_text_area_content(&mut self, content: String)
        ensures
            *final(self) == (ClientProps {
                client_text_area: TextAreaProps { content, ..old(self).client_text_area },
                ..*old(self)
            }),
    {
        self.client_text_area.set_content(content);
    }

    pub fn set_area_kind(&mut self, area_kind: AreaKind)
        ensures
            *final(self) == (ClientProps { client_area_kind: area_kind, ..*old(self) }),
    {
        self.client_area_kind = area_kind;
    }

    pub fn set_is_write(&mut self, is_write: bool)
        ensures
            *final(self) == (ClientProps { is_write, ..*old(self) }),
    {
        self.is_write = is_write;
    }

    pub fn set_client_id(&mut self, client_id: String)
        ensures
            *final(self) == (ClientProps { client_id, ..*old(self) }),
    {
        self.client_id = client_id;
    }
}

/// What a client record holds, as text.
pub struct ClientItemView {
    pub editor_content: Seq<char>,
    pub text_area_content: Seq<char>,
    pub area_kind: AreaKind,
}

impl View for ClientItem {
    type V = ClientItemView;

    open spec fn view(&self) -> ClientItemView {
        ClientItemView {
            editor_content: self.editor_content@,
            text_area_content: self.text_area_content@,
            area_kind: self.area_kind,
        }
    }
}

/// The host's record of one connected client: both areas' contents and the
/// area the client is writing in.
#[derive(PartialEq, Clone, Debug)]
pub struct ClientItem {
    pub editor_content: String,
    pub text_area_content: String,
    pub area_kind: AreaKind,
}

impl ClientItem {
    /// A record with both areas empty.
    pub fn new(area_kind: AreaKind) -> (r: Self)
        ensures
            r.editor_content@ == Seq::<char>::empty(),
            r.text_area_content@ == Seq::<char>::empty(),
            r.area_kind == area_kind,
    {
        Self { editor_content: String::new(), text_area_content: String::new(), area_kind }
    }

    pub fn set_editor_content(&mut self, content: String)
        ensures
            *final(self) == (ClientItem { editor_content: content, ..*old(self) }),
    {
        self.editor_content = content;
    }

    pub fn set_text_area_content(&mut self, content: String)
        ensures
            *final(self) == (ClientItem { text_area_content: content, ..*old(self) }),
    {
        self.text_area_content = content;
    }

    pub fn set_area_kind(&mut self, area_kind: AreaKind)
        ensures
            *final(self) == (ClientItem { area_kind, ..*old(self) }),
    {
        self.area_kind = area_kind;
    }

    /// The text of the area the client is writing in, as its box shows it.
    pub fn shown_content(&self) -> (r: &String)
        ensures
            *r == match self.area_kind {
                AreaKind::Editor => self.editor_content,
                AreaKind::TextArea => self.text_area_content,
            },
    {
        match self.area_kind {
            AreaKind::Editor => &self.editor_content,
            AreaKind::TextArea => &self.text_area_content,
        }
    }

    /// A copy with equal fields.
    pub fn duplicate(&self) -> (r: Self)
        ensures
            r == *self,
    {
        ClientItem {
            editor_content: self.editor_content.clone(),
            text_area_content: self.text_area_content.clone(),
            area_kind: self.area_kind,
        }
    }
}

} // verus!
