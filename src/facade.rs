//! The records exchanged with the Pocket service: the requests this client
//! sends and the responses it reads, as plain values. Timestamps are seconds
//! since the Unix epoch; URLs are their serialised text.
use vstd::prelude::*;

verus! {

/// A failure reported by the service client.
#[derive(Debug, Clone, PartialEq, Eq)]
pub enum PocketError {
    /// The request could not be carried out.
    Http(String),
    /// A response could not be decoded.
    Json(String),
    /// The service answered with an error code and message.
    Proto(u16, String),
}

/// Whether an item has images or videos, or is one.
#[derive(Clone, Copy, Debug, PartialEq, Eq, Structural)]
pub enum PocketItemHas {
    No,
    Yes,
    Is,
}

/// Where an item stands in the user's list.
#[derive(Clone, Copy, Debug, PartialEq, Eq, Structural)]
pub enum PocketItemStatus {
    Normal,
    Archived,
    Deleted,
}

/// An image found in a saved page.
#[derive(Debug, Clone, PartialEq, Eq)]
pub struct PocketImage {
    pub item_id: u64,
    pub image_id: u64,
    pub src: String,
    pub width: u32,
    pub height: u32,
    pub credit: String,
    pub caption: String,
}

/// A video found in a saved page.
#[derive(Debug, Clone, PartialEq, Eq)]
pub struct PocketVideo {
    pub item_id: u64,
    pub video_id: u64,
    pub src: String,
    pub width: u32,
    pub height: u32,
    pub length: Option<u64>,
    pub vid: String,
}

/// An author of a saved page.
#[derive(Debug, Clone, PartialEq, Eq)]
pub struct PocketAuthor {
    pub item_id: u64,
    pub author_id: u64,
    pub name: String,
    pub url: String,
}

/// A tag on a saved item.
#[derive(Debug, Clone, PartialEq, Eq)]
pub struct PocketTag {
    pub item_id: u64,
    pub tag: String,
}

/// What the service knows of the site an item comes from.
#[derive(Debug, Clone, PartialEq, Eq)]
pub struct PocketDomainMetadata {
    pub name: Option<String>,
    pub logo: String,
    pub greyscale_logo: String,
}

/// The service's answer to adding a link.
#[derive(Debug, Clone, PartialEq, Eq)]
pub struct PocketAddedItem {
    pub item_id: u64,
    pub normal_url: String,
    pub resolved_id: u64,
    pub resolved_url: Option<String>,
    pub title: String,
    pub excerpt: String,
    pub word_count: usize,
    pub has_image: PocketItemHas,
    pub has_video: PocketItemHas,
    pub is_index: bool,
    pub is_article: bool,
    pub lang: Option<String>,
    pub authors: Option<Vec<PocketAuthor>>,
    pub images: Option<Vec<PocketImage>>,
    pub videos: Option<Vec<PocketVideo>>,
    pub given_url: String,
}

/// A saved item as the service lists it.
#[derive(Debug, Clone, PartialEq, Eq)]
pub struct PocketItem {
    pub item_id: u64,
    pub given_url: Option<String>,
    pub given_title: String,
    pub word_count: usize,
    pub excerpt: String,
    pub time_added: i64,
    pub time_read: Option<i64>,
    pub time_updated: i64,
    pub time_favorited: Option<i64>,
    pub favorite: bool,
    pub is_index: bool,
    pub is_article: bool,
    pub has_image: PocketItemHas,
    pub has_video: PocketItemHas,
    pub resolved_id: u64,
    pub resolved_title: String,
    pub resolved_url: Option<String>,
    pub sort_id: u64,
    pub status: PocketItemStatus,
    pub tags: Option<Vec<PocketTag>>,
    pub images: Option<Vec<PocketImage>>,
    pub videos: Option<Vec<PocketVideo>>,
    pub authors: Option<Vec<PocketAuthor>>,
    pub lang: String,
    pub time_to_read: Option<u64>,
    pub domain_metadata: Option<PocketDomainMetadata>,
    pub listen_duration_estimate: Option<u64>,
    pub image: Option<PocketImage>,
    pub amp_url: Option<String>,
    pub top_image_url: Option<String>,
}

/// The account an authorization was granted for.
#[derive(Debug, Clone, PartialEq, Eq)]
pub struct PocketUser {
    pub consumer_key: String,
    pub access_token: String,
    pub username: String,
}

/// The service's answer to a batch of actions: one result per action.
#[derive(Debug, Clone, PartialEq, Eq)]
pub struct PocketSendResponse {
    pub status: u16,
    pub action_results: Vec<bool>,
}

/// A request to add a link.
#[derive(Debug, Clone, PartialEq, Eq)]
pub struct PocketAddRequest {
    pub url: String,
    pub title: Option<String>,
    pub tags: Option<Vec<String>>,
    pub tweet_id: Option<String>,
}

/// Filtering on whether items are read.
#[derive(Clone, Copy, Debug, PartialEq, Eq, Structural)]
pub enum PocketGetState {
    Unread,
    Archive,
    All,
}

/// Filtering on the kind of content.
#[derive(Clone, Copy, Debug, PartialEq, Eq, Structural)]
pub enum PocketGetType {
    Article,
    Video,
    Image,
}

/// How much of each item the service reports.
#[derive(Clone, Copy, Debug, PartialEq, Eq, Structural)]
pub enum PocketGetDetail {
    Simple,
    Complete,
}

/// The order items are listed in.
#[derive(Clone, Copy, Debug, PartialEq, Eq, Structural)]
pub enum PocketGetSort {
    Newest,
    Oldest,
    Title,
    Site,
}

/// Filtering on tags: items carrying one tag, or items with no tag.
#[derive(Debug, Clone, PartialEq, Eq)]
pub enum PocketGetTag {
    Tagged(String),
    Untagged,
}

/// A request to list saved items; an absent field does not filter.
#[derive(Debug, Clone, PartialEq, Eq)]
pub struct PocketGetRequest {
    pub search: Option<String>,
    pub domain: Option<String>,
    pub tag: Option<PocketGetTag>,
    pub state: Option<PocketGetState>,
    pub content_type: Option<PocketGetType>,
    pub detail_type: Option<PocketGetDetail>,
    pub favorite: Option<bool>,
    pub since: Option<i64>,
    pub sort: Option<PocketGetSort>,
    pub count: Option<usize>,
    pub offset: Option<usize>,
}

impl PocketGetRequest {
    /// Whether no field of the request filters.
    pub open spec fn is_unfiltered(&self) -> bool {
        &&& self.search is None
        &&& self.domain is None
        &&& self.tag is None
        &&& self.state is None
        &&& self.content_type is None
        &&& self.detail_type is None
        &&& self.favorite is None
        &&& self.since is None
        &&& self.sort is None
        &&& self.count is None
        &&& self.offset is None
    }

    /// A request that lists every item.
    pub fn new() -> (r: PocketGetRequest)
        ensures
            r.is_unfiltered(),
    {
        PocketGetRequest {
            search: None,
            domain: None,
            tag: None,
            state: None,
            content_type: None,
            detail_type: None,
            favorite: None,
            since: None,
            sort: None,
            count: None,
            offset: None,
        }
    }
}

/// One change to the user's items or tags; `time` overrides when the
/// change counts as made.
#[derive(Debug, Clone, PartialEq, Eq)]
pub enum PocketSendAction {
    Archive { item_id: u64, time: Option<u64> },
    Readd { item_id: u64, time: Option<u64> },
    Favorite { item_id: u64, time: Option<u64> },
    Unfavorite { item_id: u64, time: Option<u64> },
    Delete { item_id: u64, time: Option<u64> },
    TagsAdd { item_id: u64, tags: String, time: Option<u64> },
    TagsRemove { item_id: u64, tags: String, time: Option<u64> },
    TagsReplace { item_id: u64, tags: String, time: Option<u64> },
    TagsClear { item_id: u64, time: Option<u64> },
    TagRename { old_tag: String, new_tag: String, time: Option<u64> },
    TagDelete { tag: String, time: Option<u64> },
}

/// A batch of actions sent in one call.
#[derive(Debug, Clone, PartialEq, Eq)]
pub struct PocketSendRequest {
    pub actions: Vec<PocketSendAction>,
}

} // verus!
