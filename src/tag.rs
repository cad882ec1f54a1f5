//! Renaming and deleting a tag across all items.
use vstd::prelude::*;
use crate::facade::{PocketSendAction, PocketSendRequest};
use crate::send::{single, time_of, time_override};

verus! {

/// The `tag` subcommand; `time` is when the change counts as made, in
/// seconds since the Unix epoch.
#[derive(Debug, Clone, PartialEq, Eq)]
pub enum Tag {
    Rename { old_tag: String, new_tag: String, time: Option<i64> },
    Delete { tag: String, time: Option<i64> },
}

/// The action that carries out `t`.
pub open spec fn tag_action_of(t: Tag) -> PocketSendAction {
    match t {
        Tag::Rename { old_tag, new_tag, time } => PocketSendAction::TagRename {
            old_tag,
            new_tag,
            time: time_override(time),
        },
        Tag::Delete { tag, time } => PocketSendAction::TagDelete { tag, time: time_override(time) },
    }
}

/// The request of the `tag` subcommand: the one action that carries it out.
pub fn request(opts: &Tag) -> (r: PocketSendRequest)
    ensures
        r.actions@ == seq![tag_action_of(*opts)],
{
    let action = match opts {
        Tag::Rename { old_tag, new_tag, time } => PocketSendAction::TagRename {
            old_tag: old_tag.clone(),
            new_tag: new_tag.clone(),
            time: time_of(*time),
        },
        Tag::Delete { tag, time } => PocketSendAction::TagDelete {
            tag: tag.clone(),
            time: time_of(*time),
        },
    };
    single(action)
}

} // verus!
