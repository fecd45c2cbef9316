use vstd::prelude::*;

verus! {

/// A participant's video with the placeholder shown while it is off.
#[derive(PartialEq, Clone, Debug)]
pub struct VideoBoxProps {
    pub video_id: String,
    pub video_class: String,
    pub placeholder_id: String,
    pub placeholder_class: String,
}

} // verus!
