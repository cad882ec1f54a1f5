//! The output models every command prints, and how the service's records
//! are reshaped into them.
use vstd::prelude::*;
use crate::facade::{
    PocketAddedItem, PocketAuthor, PocketDomainMetadata, PocketImage, PocketItem, PocketItemHas,
    PocketItemStatus, PocketSendResponse, PocketTag, PocketVideo,
};

verus! {

/// Whether an item has images or videos, or is one.
#[derive(Clone, Copy, Debug, PartialEq, Eq, Structural)]
pub enum ItemHas {
    No,
    Yes,
    Is,
}

/// The output model of a media flag.
pub open spec fn has_of(h: PocketItemHas) -> ItemHas {
    match h {
        PocketItemHas::No => ItemHas::No,
        PocketItemHas::Yes => ItemHas::Yes,
        PocketItemHas::Is => ItemHas::Is,
    }
}

impl From<PocketItemHas> for ItemHas {
    fn from(h: PocketItemHas) -> ItemHas {
        match h {
            PocketItemHas::No => ItemHas::No,
            PocketItemHas::Yes => ItemHas::Yes,
            PocketItemHas::Is => ItemHas::Is,
        }
    }
}

impl vstd::std_specs::convert::FromSpecImpl<PocketItemHas> for ItemHas {
    open spec fn obeys_from_spec() -> bool {
        true
    }

    open spec fn from_spec(h: PocketItemHas) -> ItemHas {
        has_of(h)
    }
}

/// Where an item stands in the user's list.
#[derive(Clone, Copy, Debug, PartialEq, Eq, Structural)]
pub enum ItemStatus {
    Normal,
    Archived,
    Deleted,
}

/// The output model of a status.
pub open spec fn status_of(s: PocketItemStatus) -> ItemStatus {
    match s {
        PocketItemStatus::Normal => ItemStatus::Normal,
        PocketItemStatus::Archived => ItemStatus::Archived,
        PocketItemStatus::Deleted => ItemStatus::Deleted,
    }
}

impl From<PocketItemStatus> for ItemStatus {
    fn from(s: PocketItemStatus) -> ItemStatus {
        match s {
            PocketItemStatus::Normal => ItemStatus::Normal,
            PocketItemStatus::Archived => ItemStatus::Archived,
            PocketItemStatus::Deleted => ItemStatus::Deleted,
        }
    }
}

impl vstd::std_specs::convert::FromSpecImpl<PocketItemStatus> for ItemStatus {
    open spec fn obeys_from_spec() -> bool {
        true
    }

    open spec fn from_spec(s: PocketItemStatus) -> ItemStatus {
        status_of(s)
    }
}

/// An image of an item, as printed.
#[derive(Debug, Clone, PartialEq, Eq)]
pub struct Image {
    pub item_id: u64,
    pub image_id: Option<u64>,
    pub src: String,
    pub width: u32,
    pub height: u32,
    pub credit: Option<String>,
    pub caption: Option<String>,
}

/// The output model of a image.
pub open spec fn image_of(i: PocketImage) -> Image {
    Image {
        item_id: i.item_id,
        image_id: Some(i.image_id),
        src: i.src,
        width: i.width,
        height: i.height,
        credit: Some(i.credit),
        caption: Some(i.caption),
    }
}

impl From<PocketImage> for Image {
    fn from(i: PocketImage) -> Image {
        Image {
            item_id: i.item_id,
            image_id: Some(i.image_id),
            src: i.src,
            width: i.width,
            height: i.height,
            credit: Some(i.credit),
            caption: Some(i.caption),
        }
    }
}

impl vstd::std_specs::convert::FromSpecImpl<PocketImage> for Image {
    open spec fn obeys_from_spec() -> bool {
        true
    }

    open spec fn from_spec(i: PocketImage) -> Image {
        image_of(i)
    }
}

/// A video of an item, as printed.
#[derive(Debug, Clone, PartialEq, Eq)]
pub struct Video {
    pub item_id: u64,
    pub video_id: u64,
    pub src: String,
    pub width: u32,
    pub height: u32,
    pub length: Option<u64>,
    pub vid: String,
}

/// The output model of a video.
pub open spec fn video_of(v: PocketVideo) -> Video {
    Video {
        item_id: v.item_id,
        video_id: v.video_id,
        src: v.src,
        width: v.width,
        height: v.height,
        length: v.length,
        vid: v.vid,
    }
}

impl From<PocketVideo> for Video {
    fn from(v: PocketVideo) -> Video {
        Video {
            item_id: v.item_id,
            video_id: v.video_id,
            src: v.src,
            width: v.width,
            height: v.height,
            length: v.length,
            vid: v.vid,
        }
    }
}

impl vstd::std_specs::convert::FromSpecImpl<PocketVideo> for Video {
    open spec fn obeys_from_spec() -> bool {
        true
    }

    open spec fn from_spec(v: PocketVideo) -> Video {
        video_of(v)
    }
}

/// An author of an item, as printed.
#[derive(Debug, Clone, PartialEq, Eq)]
pub struct Author {
    pub item_id: u64,
    pub author_id: u64,
    pub name: String,
    pub url: String,
}

/// The output model of a author.
pub open spec fn author_of(a: PocketAuthor) -> Author {
    Author { item_id: a.item_id, author_id: a.author_id, name: a.name, url: a.url }
}

impl From<PocketAuthor> for Author {
    fn from(a: PocketAuthor) -> Author {
        Author { item_id: a.item_id, author_id: a.author_id, name: a.name, url: a.url }
    }
}

impl vstd::std_specs::convert::FromSpecImpl<PocketAuthor> for Author {
    open spec fn obeys_from_spec() -> bool {
        true
    }

    open spec fn from_spec(a: PocketAuthor) -> Author {
        author_of(a)
    }
}

/// A tag of an item, as printed.
#[derive(Debug, Clone, PartialEq, Eq)]
pub struct ItemTag {
    pub item_id: u64,
    pub tag: String,
}

/// The output model of a tag.
pub open spec fn tag_of(t: PocketTag) -> ItemTag {
    ItemTag { item_id: t.item_id, tag: t.tag }
}

impl From<PocketTag> for ItemTag {
    fn from(t: PocketTag) -> ItemTag {
        ItemTag { item_id: t.item_id, tag: t.tag }
    }
}

impl vstd::std_specs::convert::FromSpecImpl<PocketTag> for ItemTag {
    open spec fn obeys_from_spec() -> bool {
        true
    }

    open spec fn from_spec(t: PocketTag) -> ItemTag {
        tag_of(t)
    }
}

/// The site an item comes from, as printed.
#[derive(Debug, Clone, PartialEq, Eq)]
pub struct DomainMetadata {
    pub name: Option<String>,
    pub logo: String,
    pub greyscale_logo: String,
}

/// The output model of a site record.
pub open spec fn domain_of(d: PocketDomainMetadata) -> DomainMetadata {
    DomainMetadata { name: d.name, logo: d.logo, greyscale_logo: d.greyscale_logo }
}

impl From<PocketDomainMetadata> for DomainMetadata {
    fn from(d: PocketDomainMetadata) -> DomainMetadata {
        DomainMetadata { name: d.name, logo: d.logo, greyscale_logo: d.greyscale_logo }
    }
}

impl vstd::std_specs::convert::FromSpecImpl<PocketDomainMetadata> for DomainMetadata {
    open spec fn obeys_from_spec() -> bool {
        true
    }

    open spec fn from_spec(d: PocketDomainMetadata) -> DomainMetadata {
        domain_of(d)
    }
}

/// `dst` holds the image under `f` of each element of `src`, in order, and
/// is absent exactly when `src` is.
pub open spec fn mapped<A, B>(src: Option<Vec<A>>, dst: Option<Vec<B>>, f: spec_fn(A) -> B) -> bool {
    match (src, dst) {
        (None, None) => true,
        (Some(s), Some(d)) => d@ == s@.map_values(f),
        _ => false,
    }
}

/// Converts each element of `v`, keeping the order.
pub fn map_all<A, B, F: Fn(A) -> B>(v: Vec<A>, f: F) -> (r: Vec<B>)
    requires
        forall|x: A| #[trigger] f.requires((x,)),
    ensures
        r@.len() == v@.len(),
        forall|i: int| 0 <= i < v@.len() ==> f.ensures((v@[i],), #[trigger] r@[i]),
{
    let ghost src = v@;
    let mut rest = v;
    let mut r: Vec<B> = Vec::new();
    while rest.len() > 0
        invariant
            r@.len() + rest@.len() == src.len(),
            rest@ == src.subrange(r@.len() as int, src.len() as int),
            forall|x: A| #[trigger] f.requires((x,)),
            forall|i: int| 0 <= i < r@.len() ==> f.ensures((src[i],), #[trigger] r@[i]),
        decreases rest@.len(),
    {
        let x = rest.remove(0);
        let y = f(x);
        r.push(y);
    }
    r
}

/// The output models of a list of images, absent when the list is.
pub fn images_of(v: Option<Vec<PocketImage>>) -> (r: Option<Vec<Image>>)
    ensures
        mapped(v, r, |i: PocketImage| image_of(i)),
{
    match v {
        Some(v) => {
            let ghost s = v@;
            let r = map_all(v, |i: PocketImage| -> (o: Image) ensures o == image_of(i) { Image::from(i) });
            assert(r@ =~= s.map_values(|i: PocketImage| image_of(i)));
            Some(r)
        },
        None => None,
    }
}

/// The output models of a list of videos, absent when the list is.
pub fn videos_of(v: Option<Vec<PocketVideo>>) -> (r: Option<Vec<Video>>)
    ensures
        mapped(v, r, |x: PocketVideo| video_of(x)),
{
    match v {
        Some(v) => {
            let ghost s = v@;
            let r = map_all(v, |x: PocketVideo| -> (o: Video) ensures o == video_of(x) { Video::from(x) });
            assert(r@ =~= s.map_values(|x: PocketVideo| video_of(x)));
            Some(r)
        },
        None => None,
    }
}

/// The output models of a list of authors, absent when the list is.
pub fn authors_of(v: Option<Vec<PocketAuthor>>) -> (r: Option<Vec<Author>>)
    ensures
        mapped(v, r, |a: PocketAuthor| author_of(a)),
{
    match v {
        Some(v) => {
            let ghost s = v@;
            let r = map_all(v, |a: PocketAuthor| -> (o: Author) ensures o == author_of(a) { Author::from(a) });
            assert(r@ =~= s.map_values(|a: PocketAuthor| author_of(a)));
            Some(r)
        },
        None => None,
    }
}

/// The output models of a list of tags, absent when the list is.
pub fn tags_of(v: Option<Vec<PocketTag>>) -> (r: Option<Vec<ItemTag>>)
    ensures
        mapped(v, r, |t: PocketTag| tag_of(t)),
{
    match v {
        Some(v) => {
            let ghost s = v@;
            let r = map_all(v, |t: PocketTag| -> (o: ItemTag) ensures o == tag_of(t) { ItemTag::from(t) });
            assert(r@ =~= s.map_values(|t: PocketTag| tag_of(t)));
            Some(r)
        },
        None => None,
    }
}

/// A saved item as every command prints it. A field the service does not
/// report in a given answer is absent.
#[derive(Debug, Clone, PartialEq, Eq)]
pub struct Item {
    pub item_id: u64,
    pub given_url: Option<String>,
    pub given_title: Option<String>,
    pub word_count: usize,
    pub excerpt: String,
    pub time_added: Option<i64>,
    pub time_read: Option<i64>,
    pub time_updated: Option<i64>,
    pub time_favorited: Option<i64>,
    pub favorite: Option<bool>,
    pub is_index: bool,
    pub is_article: bool,
    pub has_image: ItemHas,
    pub has_video: ItemHas,
    pub resolved_id: u64,
    pub resolved_title: Option<String>,
    pub resolved_url: Option<String>,
    pub sort_id: Option<u64>,
    pub status: Option<ItemStatus>,
    pub tags: Option<Vec<ItemTag>>,
    pub images: Option<Vec<Image>>,
    pub videos: Option<Vec<Video>>,
    pub authors: Option<Vec<Author>>,
    pub lang: Option<String>,
    pub time_to_read: Option<u64>,
    pub domain_metadata: Option<DomainMetadata>,
    pub listen_duration_estimate: Option<u64>,
    pub image: Option<Image>,
    pub amp_url: Option<String>,
    pub top_image_url: Option<String>,
}

/// `r` is the output model of the service's answer `p` to adding a link:
/// what `p` reports is carried over, and what is not known when a link is
/// added (times, favourite flag, tags, status, titles, reading estimates) is
/// absent.
pub open spec fn item_from_added(p: PocketAddedItem, r: Item) -> bool {
    &&& r.item_id == p.item_id
    &&& r.given_url == Some(p.given_url)
    &&& r.given_title is None
    &&& r.word_count == p.word_count
    &&& r.excerpt == p.excerpt
    &&& r.time_added is None
    &&& r.time_read is None
    &&& r.time_updated is None
    &&& r.time_favorited is None
    &&& r.favorite is None
    &&& r.is_index == p.is_index
    &&& r.is_article == p.is_article
    &&& r.has_image == has_of(p.has_image)
    &&& r.has_video == has_of(p.has_video)
    &&& r.resolved_id == p.resolved_id
    &&& r.resolved_title is None
    &&& r.resolved_url == p.resolved_url
    &&& r.sort_id is None
    &&& r.status is None
    &&& r.tags is None
    &&& mapped(p.images, r.images, |i: PocketImage| image_of(i))
    &&& mapped(p.videos, r.videos, |v: PocketVideo| video_of(v))
    &&& mapped(p.authors, r.authors, |a: PocketAuthor| author_of(a))
    &&& r.lang == p.lang
    &&& r.time_to_read is None
    &&& r.domain_metadata is None
    &&& r.listen_duration_estimate is None
    &&& r.image is None
    &&& r.amp_url is None
    &&& r.top_image_url is None
}

/// `r` is the output model of the listed item `p`: every field of `p` is
/// carried over, those the model holds as optional being present.
pub open spec fn item_from_listed(p: PocketItem, r: Item) -> bool {
    &&& r.item_id == p.item_id
    &&& r.given_url == p.given_url
    &&& r.given_title == Some(p.given_title)
    &&& r.word_count == p.word_count
    &&& r.excerpt == p.excerpt
    &&& r.time_added == Some(p.time_added)
    &&& r.time_read == p.time_read
    &&& r.time_updated == Some(p.time_updated)
    &&& r.time_favorited == p.time_favorited
    &&& r.favorite == Some(p.favorite)
    &&& r.is_index == p.is_index
    &&& r.is_article == p.is_article
    &&& r.has_image == has_of(p.has_image)
    &&& r.has_video == has_of(p.has_video)
    &&& r.resolved_id == p.resolved_id
    &&& r.resolved_title == Some(p.resolved_title)
    &&& r.resolved_url == p.resolved_url
    &&& r.sort_id == Some(p.sort_id)
    &&& r.status == Some(status_of(p.status))
    &&& mapped(p.tags, r.tags, |t: PocketTag| tag_of(t))
    &&& mapped(p.images, r.images, |i: PocketImage| image_of(i))
    &&& mapped(p.videos, r.videos, |v: PocketVideo| video_of(v))
    &&& mapped(p.authors, r.authors, |a: PocketAuthor| author_of(a))
    &&& r.lang == Some(p.lang)
    &&& r.time_to_read == p.time_to_read
    &&& r.domain_metadata == match p.domain_metadata {
        Some(d) => Some(domain_of(d)),
        None => None::<DomainMetadata>,
    }
    &&& r.listen_duration_estimate == p.listen_duration_estimate
    &&& r.image == match p.image {
        Some(i) => Some(image_of(i)),
        None => None::<Image>,
    }
    &&& r.amp_url == p.amp_url
    &&& r.top_image_url == p.top_image_url
}

/// The output model of the service's answer to adding a link.
impl From<PocketAddedItem> for Item {
    fn from(p: PocketAddedItem) -> (r: Item)
        ensures
            item_from_added(p, r),
    {
        Item {
            item_id: p.item_id,
            given_url: Some(p.given_url),
            given_title: None,
            word_count: p.word_count,
            excerpt: p.excerpt,
            time_added: None,
            time_read: None,
            time_updated: None,
            time_favorited: None,
            favorite: None,
            is_index: p.is_index,
            is_article: p.is_article,
            has_image: ItemHas::from(p.has_image),
            has_video: ItemHas::from(p.has_video),
            resolved_id: p.resolved_id,
            resolved_title: None,
            resolved_url: p.resolved_url,
            sort_id: None,
            status: None,
            tags: None,
            images: images_of(p.images),
            videos: videos_of(p.videos),
            authors: authors_of(p.authors),
            lang: p.lang,
            time_to_read: None,
            domain_metadata: None,
            listen_duration_estimate: None,
            image: None,
            amp_url: None,
            top_image_url: None,
        }
    }
}

/// The output model of an item as the service lists it.
impl From<PocketItem> for Item {
    fn from(p: PocketItem) -> (r: Item)
        ensures
            item_from_listed(p, r),
    {
        let domain_metadata = match p.domain_metadata {
            Some(d) => Some(DomainMetadata::from(d)),
            None => None,
        };
        let image = match p.image {
            Some(i) => Some(Image::from(i)),
            None => None,
        };
        Item {
            item_id: p.item_id,
            given_url: p.given_url,
            given_title: Some(p.given_title),
            word_count: p.word_count,
            excerpt: p.excerpt,
            time_added: Some(p.time_added),
            time_read: p.time_read,
            time_updated: Some(p.time_updated),
            time_favorited: p.time_favorited,
            favorite: Some(p.favorite),
            is_index: p.is_index,
            is_article: p.is_article,
            has_image: ItemHas::from(p.has_image),
            has_video: ItemHas::from(p.has_video),
            resolved_id: p.resolved_id,
            resolved_title: Some(p.resolved_title),
            resolved_url: p.resolved_url,
            sort_id: Some(p.sort_id),
            status: Some(ItemStatus::from(p.status)),
            tags: tags_of(p.tags),
            images: images_of(p.images),
            videos: videos_of(p.videos),
            authors: authors_of(p.authors),
            lang: Some(p.lang),
            time_to_read: p.time_to_read,
            domain_metadata,
            listen_duration_estimate: p.listen_duration_estimate,
            image,
            amp_url: p.amp_url,
            top_image_url: p.top_image_url,
        }
    }
}

/// Several items meet `item_from_added` for one answer (lists are
/// described by their elements), so `from` is not tied to one of them: its
/// own `ensures` states what it returns.
impl vstd::std_specs::convert::FromSpecImpl<PocketAddedItem> for Item {
    open spec fn obeys_from_spec() -> bool {
        false
    }

    open spec fn from_spec(p: PocketAddedItem) -> Item {
        choose|r: Item| item_from_added(p, r)
    }
}

/// As for an added item, `from`'s own `ensures` states what it returns.
impl vstd::std_specs::convert::FromSpecImpl<PocketItem> for Item {
    open spec fn obeys_from_spec() -> bool {
        false
    }

    open spec fn from_spec(p: PocketItem) -> Item {
        choose|r: Item| item_from_listed(p, r)
    }
}

/// Mapping the answer to adding a link (`Item::from`) invents nothing: the
/// times, tags, favourite flag, status, titles, reading estimates and site
/// data, unknown when a link is added, are absent.
pub proof fn lemma_added_item_leaves_unknown_absent(p: PocketAddedItem, r: Item)
    requires
        item_from_added(p, r),
    ensures
        r.time_added is None,
        r.time_read is None,
        r.time_updated is None,
        r.time_favorited is None,
        r.favorite is None,
        r.tags is None,
        r.status is None,
        r.sort_id is None,
        r.given_title is None,
        r.resolved_title is None,
        r.time_to_read is None,
        r.domain_metadata is None,
        r.listen_duration_estimate is None,
        r.image is None,
        r.amp_url is None,
        r.top_image_url is None,
{
}

/// The service's answer to a batch of one action.
#[derive(Debug, Clone, PartialEq, Eq)]
pub struct IndividualSendResponse {
    pub status: u16,
    pub action_result: Option<bool>,
}

/// The answer to a batch of one action: its status and the result of its
/// first action, absent when the service reported none.
pub open spec fn send_response_of(p: PocketSendResponse) -> IndividualSendResponse {
    IndividualSendResponse {
        status: p.status,
        action_result: if p.action_results@.len() > 0 {
            Some(p.action_results@[0])
        } else {
            None
        },
    }
}

impl From<PocketSendResponse> for IndividualSendResponse {
    fn from(p: PocketSendResponse) -> IndividualSendResponse {
        let action_result = if p.action_results.len() > 0 {
            Some(p.action_results[0])
        } else {
            None
        };
        IndividualSendResponse { status: p.status, action_result }
    }
}

impl vstd::std_specs::convert::FromSpecImpl<PocketSendResponse> for IndividualSendResponse {
    open spec fn obeys_from_spec() -> bool {
        true
    }

    open spec fn from_spec(p: PocketSendResponse) -> IndividualSendResponse {
        send_response_of(p)
    }
}

} // verus!
