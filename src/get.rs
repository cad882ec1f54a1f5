//! The `get` subcommand: list saved items, filtered.
use vstd::prelude::*;
use crate::facade::{
    PocketError, PocketGetDetail, PocketGetRequest, PocketGetSort, PocketGetState, PocketGetTag,
    PocketGetType, PocketItem,
};
use crate::models::{Item, item_from_listed, map_all};
use crate::text::str_eq;

verus! {

/// The options of `get`; an absent option does not filter. `since` is in
/// seconds since the Unix epoch.
#[derive(Debug, Clone, PartialEq, Eq)]
pub struct GetOpts {
    pub search: Option<String>,
    pub domain: Option<String>,
    pub tag: Option<String>,
    pub untagged: bool,
    pub state: Option<PocketGetState>,
    pub content_type: Option<PocketGetType>,
    pub detail_type: Option<PocketGetDetail>,
    pub favorite: Option<bool>,
    pub since: Option<i64>,
    pub sort: Option<PocketGetSort>,
    pub count: Option<usize>,
    pub offset: Option<usize>,
}

impl GetOpts {
    /// Whether no option is given.
    pub open spec fn is_empty(&self) -> bool {
        &&& self.search is None
        &&& self.domain is None
        &&& self.tag is None
        &&& !self.untagged
        &&& self.state is None
        &&& self.content_type is None
        &&& self.detail_type is None
        &&& self.favorite is None
        &&& self.since is None
        &&& self.sort is None
        &&& self.count is None
        &&& self.offset is None
    }
}

/// Options of `get` that cannot be combined.
#[derive(Clone, Copy, Debug, PartialEq, Eq, Structural)]
pub enum GetError {
    /// Both a tag and "untagged" were asked for.
    TagConflict,
}

impl GetError {
    /// The message shown to the user.
    pub fn message(&self) -> (r: &'static str)
        ensures
            r@ == "Cannot set tag and untagged"@,
    {
        "Cannot set tag and untagged"
    }
}

/// The tag filter that the options ask for.
pub open spec fn tag_filter(tag: Option<String>, untagged: bool) -> Option<PocketGetTag> {
    match tag {
        Some(t) => Some(PocketGetTag::Tagged(t)),
        None => if untagged {
            Some(PocketGetTag::Untagged)
        } else {
            None
        },
    }
}

/// The request that `get` sends for `o`: each option given filters, and a
/// tag together with "untagged" is refused.
pub open spec fn filter_of(o: GetOpts) -> Result<PocketGetRequest, GetError> {
    if o.tag is Some && o.untagged {
        Err(GetError::TagConflict)
    } else {
        Ok(
            PocketGetRequest {
                search: o.search,
                domain: o.domain,
                tag: tag_filter(o.tag, o.untagged),
                state: o.state,
                content_type: o.content_type,
                detail_type: o.detail_type,
                favorite: o.favorite,
                since: o.since,
                sort: o.sort,
                count: o.count,
                offset: o.offset,
            },
        )
    }
}

/// Builds the request of `get` from its options.
pub fn filter(opts: GetOpts) -> (r: Result<PocketGetRequest, GetError>)
    ensures
        r == filter_of(opts),
{
    if opts.tag.is_some() && opts.untagged {
        return Err(GetError::TagConflict);
    }
    let mut f = PocketGetRequest::new();
    f.search = opts.search;
    f.domain = opts.domain;
    f.tag = match opts.tag {
        Some(t) => Some(PocketGetTag::Tagged(t)),
        None => if opts.untagged {
            Some(PocketGetTag::Untagged)
        } else {
            None
        },
    };
    f.state = opts.state;
    f.content_type = opts.content_type;
    f.detail_type = opts.detail_type;
    f.favorite = opts.favorite;
    f.since = opts.since;
    f.sort = opts.sort;
    f.offset = opts.offset;
    f.count = opts.count;
    Ok(f)
}

/// With no option given, `get` asks for every item, unfiltered.
pub proof fn lemma_no_options_no_filter(o: GetOpts)
    requires
        o.is_empty(),
    ensures
        filter_of(o) is Ok,
        filter_of(o)->Ok_0.is_unfiltered(),
{
}

/// A tag together with "untagged" is refused, whatever the other options.
pub proof fn lemma_tag_and_untagged_refused(o: GetOpts)
    requires
        o.tag is Some,
        o.untagged,
    ensures
        filter_of(o) == Err::<PocketGetRequest, GetError>(GetError::TagConflict),
{
}

/// Finishes `get` with the service's answer: the listed items as output
/// models, in the order listed, or the service's error.
pub fn handle(reply: Result<Vec<PocketItem>, PocketError>) -> (r: Result<Vec<Item>, PocketError>)
    ensures
        reply is Ok <==> r is Ok,
        reply is Ok ==> r->Ok_0@.len() == reply->Ok_0@.len() && forall|i: int|
            0 <= i < reply->Ok_0@.len() ==> item_from_listed(
                reply->Ok_0@[i],
                #[trigger] r->Ok_0@[i],
            ),
        reply is Err ==> r->Err_0 == reply->Err_0,
{
    match reply {
        Ok(items) => {
            let r = map_all(
                items,
                |p: PocketItem| -> (o: Item) ensures item_from_listed(p, o) { Item::from(p) },
            );
            Ok(r)
        },
        Err(e) => Err(e),
    }
}

/// A word naming a state filter.
pub open spec fn state_of_name(s: Seq<char>) -> Option<PocketGetState> {
    if s == "unread"@ {
        Some(PocketGetState::Unread)
    } else if s == "archive"@ {
        Some(PocketGetState::Archive)
    } else if s == "all"@ {
        Some(PocketGetState::All)
    } else {
        None
    }
}

/// Reads `--state`; the error is the message shown to the user.
pub fn parse_get_state(s: &str) -> (r: Result<PocketGetState, String>)
    ensures
        state_of_name(s@) is Some ==> r == Ok::<PocketGetState, String>(state_of_name(s@).unwrap()),
        state_of_name(s@) is None ==> r is Err && r->Err_0@ == "Invalid state: "@ + s@,
{
    if str_eq(s, "unread") {
        Ok(PocketGetState::Unread)
    } else if str_eq(s, "archive") {
        Ok(PocketGetState::Archive)
    } else if str_eq(s, "all") {
        Ok(PocketGetState::All)
    } else {
        let mut m = String::from_str("Invalid state: ");
        m.append(s);
        Err(m)
    }
}

/// A word naming a content type filter.
pub open spec fn content_type_of_name(s: Seq<char>) -> Option<PocketGetType> {
    if s == "article"@ {
        Some(PocketGetType::Article)
    } else if s == "video"@ {
        Some(PocketGetType::Video)
    } else if s == "image"@ {
        Some(PocketGetType::Image)
    } else {
        None
    }
}

/// Reads `--content-type`; the error is the message shown to the user.
pub fn parse_get_content_type(s: &str) -> (r: Result<PocketGetType, String>)
    ensures
        content_type_of_name(s@) is Some ==> r == Ok::<PocketGetType, String>(
            content_type_of_name(s@).unwrap(),
        ),
        content_type_of_name(s@) is None ==> r is Err && r->Err_0@ == "Invalid content type: "@
            + s@,
{
    if str_eq(s, "article") {
        Ok(PocketGetType::Article)
    } else if str_eq(s, "video") {
        Ok(PocketGetType::Video)
    } else if str_eq(s, "image") {
        Ok(PocketGetType::Image)
    } else {
        let mut m = String::from_str("Invalid content type: ");
        m.append(s);
        Err(m)
    }
}

/// A word naming a level of detail.
pub open spec fn detail_type_of_name(s: Seq<char>) -> Option<PocketGetDetail> {
    if s == "simple"@ {
        Some(PocketGetDetail::Simple)
    } else if s == "complete"@ {
        Some(PocketGetDetail::Complete)
    } else {
        None
    }
}

/// Reads `--detail-type`; the error is the message shown to the user.
pub fn parse_get_detail_type(s: &str) -> (r: Result<PocketGetDetail, String>)
    ensures
        detail_type_of_name(s@) is Some ==> r == Ok::<PocketGetDetail, String>(
            detail_type_of_name(s@).unwrap(),
        ),
        detail_type_of_name(s@) is None ==> r is Err && r->Err_0@ == "Invalid detail type: "@
            + s@,
{
    if str_eq(s, "simple") {
        Ok(PocketGetDetail::Simple)
    } else if str_eq(s, "complete") {
        Ok(PocketGetDetail::Complete)
    } else {
        let mut m = String::from_str("Invalid detail type: ");
        m.append(s);
        Err(m)
    }
}

/// A word naming a sort order.
pub open spec fn sort_of_name(s: Seq<char>) -> Option<PocketGetSort> {
    if s == "newest"@ {
        Some(PocketGetSort::Newest)
    } else if s == "oldest"@ {
        Some(PocketGetSort::Oldest)
    } else if s == "title"@ {
        Some(PocketGetSort::Title)
    } else if s == "site"@ {
        Some(PocketGetSort::Site)
    } else {
        None
    }
}

/// Reads `--sort`; the error is the message shown to the user.
pub fn parse_get_sort(s: &str) -> (r: Result<PocketGetSort, String>)
    ensures
        sort_of_name(s@) is Some ==> r == Ok::<PocketGetSort, String>(sort_of_name(s@).unwrap()),
        sort_of_name(s@) is None ==> r is Err && r->Err_0@ == "Invalid sort: "@ + s@,
{
    if str_eq(s, "newest") {
        Ok(PocketGetSort::Newest)
    } else if str_eq(s, "oldest") {
        Ok(PocketGetSort::Oldest)
    } else if str_eq(s, "title") {
        Ok(PocketGetSort::Title)
    } else if str_eq(s, "site") {
        Ok(PocketGetSort::Site)
    } else {
        let mut m = String::from_str("Invalid sort: ");
        m.append(s);
        Err(m)
    }
}

} // verus!
