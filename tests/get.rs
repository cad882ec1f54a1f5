use pocket_cli::facade::{
    PocketDomainMetadata, PocketError, PocketGetDetail, PocketGetRequest, PocketGetSort,
    PocketGetState, PocketGetTag, PocketGetType, PocketItem, PocketItemHas, PocketItemStatus,
    PocketTag,
};
use pocket_cli::get::{
    filter, handle, parse_get_content_type, parse_get_detail_type, parse_get_sort, parse_get_state,
    GetError, GetOpts,
};
use pocket_cli::models::{DomainMetadata, ItemHas, ItemStatus, ItemTag};

fn no_opts() -> GetOpts {
    GetOpts {
        search: None,
        domain: None,
        tag: None,
        untagged: false,
        state: None,
        content_type: None,
        detail_type: None,
        favorite: None,
        since: None,
        sort: None,
        count: None,
        offset: None,
    }
}

fn listed(id: u64) -> PocketItem {
    PocketItem {
        item_id: id,
        given_url: Some("https://example.com/".to_string()),
        given_title: "given".to_string(),
        word_count: 10,
        excerpt: "ex".to_string(),
        time_added: 100,
        time_read: None,
        time_updated: 200,
        time_favorited: Some(150),
        favorite: true,
        is_index: false,
        is_article: true,
        has_image: PocketItemHas::Yes,
        has_video: PocketItemHas::No,
        resolved_id: id + 1,
        resolved_title: "resolved".to_string(),
        resolved_url: None,
        sort_id: 3,
        status: PocketItemStatus::Archived,
        tags: Some(vec![PocketTag { item_id: id, tag: "foo".to_string() }]),
        images: None,
        videos: None,
        authors: None,
        lang: "en".to_string(),
        time_to_read: Some(4),
        domain_metadata: Some(PocketDomainMetadata { name: None, logo: "l".to_string(), greyscale_logo: "g".to_string() }),
        listen_duration_estimate: None,
        image: None,
        amp_url: None,
        top_image_url: Some("t".to_string()),
    }
}

#[test]
fn get_writes_items() {
    let f = filter(no_opts()).unwrap();
    assert_eq!(f, PocketGetRequest::new());
    let items = handle(Ok(vec![])).unwrap();
    assert!(items.is_empty());
}

#[test]
fn get_without_options_is_unfiltered() {
    assert_eq!(filter(no_opts()), Ok(PocketGetRequest::new()));
}

#[test]
fn get_tag_and_untagged_refused() {
    let mut o = no_opts();
    o.tag = Some("foo".to_string());
    o.untagged = true;
    assert_eq!(filter(o), Err(GetError::TagConflict));
    assert_eq!(GetError::TagConflict.message(), "Cannot set tag and untagged");
}

#[test]
fn get_tag_sort_count_scenario() {
    let mut o = no_opts();
    o.tag = Some("foo".to_string());
    o.sort = parse_get_sort("newest").ok();
    o.count = Some(10);
    let f = filter(o).unwrap();
    let mut expected = PocketGetRequest::new();
    expected.tag = Some(PocketGetTag::Tagged("foo".to_string()));
    expected.sort = Some(PocketGetSort::Newest);
    expected.count = Some(10);
    assert_eq!(f, expected);
    assert_eq!(f.search, None);
    assert_eq!(f.domain, None);
    assert_eq!(f.state, None);
}

#[test]
fn get_untagged_and_other_options() {
    let mut o = no_opts();
    o.untagged = true;
    o.search = Some("rust".to_string());
    o.domain = Some("example.com".to_string());
    o.state = Some(PocketGetState::All);
    o.content_type = Some(PocketGetType::Video);
    o.detail_type = Some(PocketGetDetail::Complete);
    o.favorite = Some(false);
    o.since = Some(1_600_000_000);
    o.offset = Some(5);
    let f = filter(o).unwrap();
    assert_eq!(f.tag, Some(PocketGetTag::Untagged));
    assert_eq!(f.search, Some("rust".to_string()));
    assert_eq!(f.domain, Some("example.com".to_string()));
    assert_eq!(f.state, Some(PocketGetState::All));
    assert_eq!(f.content_type, Some(PocketGetType::Video));
    assert_eq!(f.detail_type, Some(PocketGetDetail::Complete));
    assert_eq!(f.favorite, Some(false));
    assert_eq!(f.since, Some(1_600_000_000));
    assert_eq!(f.offset, Some(5));
    assert_eq!(f.count, None);
    assert_eq!(f.sort, None);
}

#[test]
fn get_maps_listed_items_in_order() {
    let items = handle(Ok(vec![listed(1), listed(2)])).unwrap();
    assert_eq!(items.len(), 2);
    assert_eq!(items[0].item_id, 1);
    assert_eq!(items[1].item_id, 2);
    let i = &items[0];
    assert_eq!(i.given_title, Some("given".to_string()));
    assert_eq!(i.time_added, Some(100));
    assert_eq!(i.time_updated, Some(200));
    assert_eq!(i.time_read, None);
    assert_eq!(i.time_favorited, Some(150));
    assert_eq!(i.favorite, Some(true));
    assert_eq!(i.has_image, ItemHas::Yes);
    assert_eq!(i.has_video, ItemHas::No);
    assert_eq!(i.resolved_title, Some("resolved".to_string()));
    assert_eq!(i.sort_id, Some(3));
    assert_eq!(i.status, Some(ItemStatus::Archived));
    assert_eq!(i.tags, Some(vec![ItemTag { item_id: 1, tag: "foo".to_string() }]));
    assert_eq!(i.lang, Some("en".to_string()));
    assert_eq!(i.time_to_read, Some(4));
    assert_eq!(i.domain_metadata, Some(DomainMetadata { name: None, logo: "l".to_string(), greyscale_logo: "g".to_string() }));
    assert_eq!(i.top_image_url, Some("t".to_string()));
    assert_eq!(i.images, None);
}

#[test]
fn get_fails_when_pocket_error() {
    let r = handle(Err(PocketError::Proto(1, "".to_string())));
    assert_eq!(r, Err(PocketError::Proto(1, "".to_string())));
}

#[test]
fn get_option_words_parse() {
    assert_eq!(parse_get_state("unread"), Ok(PocketGetState::Unread));
    assert_eq!(parse_get_state("archive"), Ok(PocketGetState::Archive));
    assert_eq!(parse_get_state("all"), Ok(PocketGetState::All));
    assert_eq!(parse_get_state("read"), Err("Invalid state: read".to_string()));
    assert_eq!(parse_get_content_type("article"), Ok(PocketGetType::Article));
    assert_eq!(parse_get_content_type("video"), Ok(PocketGetType::Video));
    assert_eq!(parse_get_content_type("image"), Ok(PocketGetType::Image));
    assert_eq!(parse_get_content_type("audio"), Err("Invalid content type: audio".to_string()));
    assert_eq!(parse_get_detail_type("simple"), Ok(PocketGetDetail::Simple));
    assert_eq!(parse_get_detail_type("complete"), Ok(PocketGetDetail::Complete));
    assert_eq!(parse_get_detail_type("full"), Err("Invalid detail type: full".to_string()));
    assert_eq!(parse_get_sort("newest"), Ok(PocketGetSort::Newest));
    assert_eq!(parse_get_sort("oldest"), Ok(PocketGetSort::Oldest));
    assert_eq!(parse_get_sort("title"), Ok(PocketGetSort::Title));
    assert_eq!(parse_get_sort("site"), Ok(PocketGetSort::Site));
    assert_eq!(parse_get_sort("random"), Err("Invalid sort: random".to_string()));
}
