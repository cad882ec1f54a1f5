//! Adding, removing and replacing the tags of one item.
use vstd::prelude::*;
use crate::facade::{PocketSendAction, PocketSendRequest};
use crate::send::{single, time_of, time_override};

verus! {

/// The changes to an item's tags that carry a list of tags.
#[derive(Clone, Copy, Debug, PartialEq, Eq, Structural)]
pub enum TagsAction {
    Add,
    Remove,
    Replace,
}

/// The options of the tag-list subcommands: the item, the tags, and when the
/// change counts as made, in seconds since the Unix epoch.
#[derive(Debug, Clone, PartialEq, Eq)]
pub struct TagsOpts {
    pub item_id: u64,
    pub tags: Option<Vec<String>>,
    pub time: Option<i64>,
}

/// The words of `ws` with a comma between each two.
pub open spec fn joined(ws: Seq<Seq<char>>) -> Seq<char>
    decreases ws.len(),
{
    if ws.len() == 0 {
        Seq::empty()
    } else if ws.len() == 1 {
        ws[0]
    } else {
        joined(ws.drop_last()) + ","@ + ws.last()
    }
}

/// The characters of each string.
pub open spec fn views(v: Seq<String>) -> Seq<Seq<char>> {
    v.map_values(|s: String| s@)
}

/// The tags of `tags` as one comma-separated list.
pub fn join_tags(tags: &Vec<String>) -> (r: String)
    ensures
        r@ == joined(views(tags@)),
{
    let mut r = String::new();
    let mut i: usize = 0;
    while i < tags.len()
        invariant
            0 <= i <= tags@.len(),
            r@ == joined(views(tags@.subrange(0, i as int))),
        decreases tags@.len() - i,
    {
        proof {
            let a = views(tags@.subrange(0, i as int));
            let b = views(tags@.subrange(0, i + 1));
            assert(b.drop_last() =~= a);
            assert(b.last() == tags@[i as int]@);
        }
        if i > 0 {
            r.append(",");
        }
        r.append(tags[i].as_str());
        i = i + 1;
    }
    assert(tags@.subrange(0, tags@.len() as int) =~= tags@);
    r
}

/// The tag list sent for the given tags: empty when none is given.
pub open spec fn tag_list(tags: Option<Vec<String>>) -> Seq<char> {
    match tags {
        Some(v) => joined(views(v@)),
        None => Seq::empty(),
    }
}

/// The request of a tag-list subcommand: one action of kind `kind` on the
/// item of `opts`, carrying its tags as one comma-separated list.
pub fn request(kind: TagsAction, opts: &TagsOpts) -> (r: PocketSendRequest)
    ensures
        r.actions@.len() == 1,
        match (kind, r.actions@[0]) {
            (TagsAction::Add, PocketSendAction::TagsAdd { item_id, tags, time }) => item_id
                == opts.item_id && tags@ == tag_list(opts.tags) && time == time_override(opts.time),
            (TagsAction::Remove, PocketSendAction::TagsRemove { item_id, tags, time }) => item_id
                == opts.item_id && tags@ == tag_list(opts.tags) && time == time_override(opts.time),
            (TagsAction::Replace, PocketSendAction::TagsReplace { item_id, tags, time }) => item_id
                == opts.item_id && tags@ == tag_list(opts.tags) && time == time_override(opts.time),
            _ => false,
        },
{
    let tags = match &opts.tags {
        Some(v) => join_tags(v),
        None => String::new(),
    };
    let time = time_of(opts.time);
    let item_id = opts.item_id;
    let action = match kind {
        TagsAction::Add => PocketSendAction::TagsAdd { item_id, tags, time },
        TagsAction::Remove => PocketSendAction::TagsRemove { item_id, tags, time },
        TagsAction::Replace => PocketSendAction::TagsReplace { item_id, tags, time },
    };
    single(action)
}

} // verus!
