use vstd::prelude::*;

verus! {

/// Which of the two shared areas a participant is writing in.
#[derive(PartialEq, Eq, Structural, Clone, Copy, Debug)]
pub enum AreaKind {
    Editor,
    TextArea,
}

/// The content of a text area together with its display settings.
#[derive(PartialEq, Clone, Debug)]
pub struct TextAreaProps {
    pub content: String,
    pub placeholder: String,
    pub is_disabled: bool,
}

impl TextAreaProps {
    /// An empty, disabled text area.
    pub fn new() -> (r: Self)
        ensures
            r.content@ == Seq::<char>::empty(),
            r.placeholder@ == Seq::<char>::empty(),
            r.is_disabled,
    {
        Self { content: String::new(), placeholder: String::new(), is_disabled: true }
    }

    pub fn set_content(&mut self, content: String)
        ensures
            *final(self) == (TextAreaProps { content, ..*old(self) }),
    {
        self.content = content;
    }

    pub fn set_placeholder(&mut self, placeholder: String)
        ensures
            *final(self) == (TextAreaProps { placeholder, ..*old(self) }),
    {
        self.placeholder = placeholder;
    }

    /// A copy with equal fields.
    pub fn duplicate(&self) -> (r: Self)
        ensures
            r == *self,
    {
        TextAreaProps {
            content: self.content.clone(),
            placeholder: self.placeholder.clone(),
            is_disabled: self.is_disabled,
        }
    }
}

/// What a participant shows when someone joins: both areas' contents, the
/// area in use and whether the participants see each other.
#[derive(PartialEq, Clone, Debug)]
pub struct InitUser {
    pub editor_content: String,
    pub text_area_content: String,
    pub area_kind: AreaKind,
    pub is_communication: bool,
}

impl InitUser {
    /// A copy with equal fields.
    pub fn duplicate(&self) -> (r: Self)
        ensures
            r == *self,
    {
        InitUser {
            editor_content: self.editor_content.clone(),
            text_area_content: self.text_area_content.clone(),
            area_kind: self.area_kind,
            is_communication: self.is_communication,
        }
    }
}

} // verus!
