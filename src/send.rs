//! Changes to one item or tag, sent as a batch of one action, and the shared
//! handling of the service's answer.
use vstd::prelude::*;
use crate::facade::{PocketError, PocketSendAction, PocketSendRequest, PocketSendResponse};
use crate::models::{IndividualSendResponse, send_response_of};

verus! {

/// The changes that name one item and carry nothing else.
#[derive(Clone, Copy, Debug, PartialEq, Eq, Structural)]
pub enum ItemAction {
    Archive,
    Readd,
    Favorite,
    Unfavorite,
    Delete,
    TagsClear,
}

/// The options of the item subcommands: the item, and when the change counts
/// as made, in seconds since the Unix epoch.
#[derive(Clone, Copy, Debug, PartialEq, Eq, Structural)]
pub struct SendItemOpts {
    pub item_id: u64,
    pub time: Option<i64>,
}

/// The time override sent for a given time: the timestamp's bits read as
/// unsigned.
pub open spec fn time_override(t: Option<i64>) -> Option<u64> {
    match t {
        Some(s) => Some(s as u64),
        None => None,
    }
}

/// The time override sent for a given time.
pub fn time_of(t: Option<i64>) -> (r: Option<u64>)
    ensures
        r == time_override(t),
{
    match t {
        Some(s) => Some(s as u64),
        None => None,
    }
}

/// The action of kind `kind` on item `item_id`, with time override `time`.
pub open spec fn item_action_of(kind: ItemAction, item_id: u64, time: Option<u64>) -> PocketSendAction {
    match kind {
        ItemAction::Archive => PocketSendAction::Archive { item_id, time },
        ItemAction::Readd => PocketSendAction::Readd { item_id, time },
        ItemAction::Favorite => PocketSendAction::Favorite { item_id, time },
        ItemAction::Unfavorite => PocketSendAction::Unfavorite { item_id, time },
        ItemAction::Delete => PocketSendAction::Delete { item_id, time },
        ItemAction::TagsClear => PocketSendAction::TagsClear { item_id, time },
    }
}

/// The item an action names, if it names one.
pub open spec fn action_item(a: PocketSendAction) -> Option<u64> {
    match a {
        PocketSendAction::Archive { item_id, .. } => Some(item_id),
        PocketSendAction::Readd { item_id, .. } => Some(item_id),
        PocketSendAction::Favorite { item_id, .. } => Some(item_id),
        PocketSendAction::Unfavorite { item_id, .. } => Some(item_id),
        PocketSendAction::Delete { item_id, .. } => Some(item_id),
        PocketSendAction::TagsAdd { item_id, .. } => Some(item_id),
        PocketSendAction::TagsRemove { item_id, .. } => Some(item_id),
        PocketSendAction::TagsReplace { item_id, .. } => Some(item_id),
        PocketSendAction::TagsClear { item_id, .. } => Some(item_id),
        PocketSendAction::TagRename { .. } => None,
        PocketSendAction::TagDelete { .. } => None,
    }
}

/// The time override an action carries.
pub open spec fn action_time(a: PocketSendAction) -> Option<u64> {
    match a {
        PocketSendAction::Archive { time, .. } => time,
        PocketSendAction::Readd { time, .. } => time,
        PocketSendAction::Favorite { time, .. } => time,
        PocketSendAction::Unfavorite { time, .. } => time,
        PocketSendAction::Delete { time, .. } => time,
        PocketSendAction::TagsAdd { time, .. } => time,
        PocketSendAction::TagsRemove { time, .. } => time,
        PocketSendAction::TagsReplace { time, .. } => time,
        PocketSendAction::TagsClear { time, .. } => time,
        PocketSendAction::TagRename { time, .. } => time,
        PocketSendAction::TagDelete { time, .. } => time,
    }
}

/// The batch that carries `action` alone.
pub fn single(action: PocketSendAction) -> (r: PocketSendRequest)
    ensures
        r.actions@ == seq![action],
{
    let mut actions: Vec<PocketSendAction> = Vec::new();
    actions.push(action);
    PocketSendRequest { actions }
}

/// The request of an item subcommand: one action of kind `kind` on the item
/// of `opts`.
pub fn request(kind: ItemAction, opts: &SendItemOpts) -> (r: PocketSendRequest)
    ensures
        r.actions@ == seq![item_action_of(kind, opts.item_id, time_override(opts.time))],
{
    let time = time_of(opts.time);
    let item_id = opts.item_id;
    let action = match kind {
        ItemAction::Archive => PocketSendAction::Archive { item_id, time },
        ItemAction::Readd => PocketSendAction::Readd { item_id, time },
        ItemAction::Favorite => PocketSendAction::Favorite { item_id, time },
        ItemAction::Unfavorite => PocketSendAction::Unfavorite { item_id, time },
        ItemAction::Delete => PocketSendAction::Delete { item_id, time },
        ItemAction::TagsClear => PocketSendAction::TagsClear { item_id, time },
    };
    single(action)
}

/// The one action an item subcommand sends (see `request`) names its item
/// and carries its time override, absent when no time is given.
pub proof fn lemma_item_request_is_one_action(kind: ItemAction, opts: SendItemOpts)
    ensures
        action_item(item_action_of(kind, opts.item_id, time_override(opts.time))) == Some(
            opts.item_id,
        ),
        opts.time is None ==> action_time(
            item_action_of(kind, opts.item_id, time_override(opts.time)),
        ) is None,
{
}

/// Finishes a subcommand that sent one action, with the service's answer.
pub fn handle(reply: Result<PocketSendResponse, PocketError>) -> (r: Result<
    IndividualSendResponse,
    PocketError,
>)
    ensures
        reply is Ok <==> r is Ok,
        reply is Ok ==> r->Ok_0 == send_response_of(reply->Ok_0),
        reply is Err ==> r->Err_0 == reply->Err_0,
{
    match reply {
        Ok(p) => Ok(IndividualSendResponse::from(p)),
        Err(e) => Err(e),
    }
}

} // verus!
