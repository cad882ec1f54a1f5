use pocket_cli::facade::{PocketError, PocketSendAction, PocketSendResponse};
use pocket_cli::models::IndividualSendResponse;
use pocket_cli::send::{handle, request, time_of, ItemAction, SendItemOpts};
use pocket_cli::tag::{self, Tag};
use pocket_cli::tags::{self, join_tags, TagsAction, TagsOpts};

#[test]
fn archive_sends_one_action() {
    let r = request(ItemAction::Archive, &SendItemOpts { item_id: 42, time: None });
    assert_eq!(r.actions, vec![PocketSendAction::Archive { item_id: 42, time: None }]);
}

#[test]
fn every_item_action_sends_one_action() {
    let opts = SendItemOpts { item_id: 7, time: Some(1_500_000_000) };
    let t = Some(1_500_000_000u64);
    assert_eq!(request(ItemAction::Readd, &opts).actions, vec![PocketSendAction::Readd { item_id: 7, time: t }]);
    assert_eq!(request(ItemAction::Favorite, &opts).actions, vec![PocketSendAction::Favorite { item_id: 7, time: t }]);
    assert_eq!(request(ItemAction::Unfavorite, &opts).actions, vec![PocketSendAction::Unfavorite { item_id: 7, time: t }]);
    assert_eq!(request(ItemAction::Delete, &opts).actions, vec![PocketSendAction::Delete { item_id: 7, time: t }]);
    assert_eq!(request(ItemAction::TagsClear, &opts).actions, vec![PocketSendAction::TagsClear { item_id: 7, time: t }]);
}

#[test]
fn negative_time_keeps_its_bits() {
    assert_eq!(time_of(Some(-1)), Some(u64::MAX));
    assert_eq!(time_of(None), None);
}

#[test]
fn send_response_maps_first_result() {
    let r = handle(Ok(PocketSendResponse { status: 1, action_results: vec![true] }));
    assert_eq!(r, Ok(IndividualSendResponse { status: 1, action_result: Some(true) }));
    let r = handle(Ok(PocketSendResponse { status: 0, action_results: vec![] }));
    assert_eq!(r, Ok(IndividualSendResponse { status: 0, action_result: None }));
    let r = handle(Err(PocketError::Http("down".to_string())));
    assert_eq!(r, Err(PocketError::Http("down".to_string())));
}

#[test]
fn tags_are_joined_with_commas() {
    assert_eq!(join_tags(&vec![]), "");
    assert_eq!(join_tags(&vec!["a".to_string()]), "a");
    assert_eq!(join_tags(&vec!["a".to_string(), "b c".to_string(), "d".to_string()]), "a,b c,d");
}

#[test]
fn tags_actions_carry_joined_tags() {
    let opts = TagsOpts { item_id: 3, tags: Some(vec!["x".to_string(), "y".to_string()]), time: None };
    assert_eq!(
        tags::request(TagsAction::Add, &opts).actions,
        vec![PocketSendAction::TagsAdd { item_id: 3, tags: "x,y".to_string(), time: None }]
    );
    assert_eq!(
        tags::request(TagsAction::Remove, &opts).actions,
        vec![PocketSendAction::TagsRemove { item_id: 3, tags: "x,y".to_string(), time: None }]
    );
    let none = TagsOpts { item_id: 3, tags: None, time: Some(5) };
    assert_eq!(
        tags::request(TagsAction::Replace, &none).actions,
        vec![PocketSendAction::TagsReplace { item_id: 3, tags: "".to_string(), time: Some(5) }]
    );
}

#[test]
fn tag_rename_and_delete() {
    let rename = Tag::Rename { old_tag: "a".to_string(), new_tag: "b".to_string(), time: None };
    assert_eq!(
        tag::request(&rename).actions,
        vec![PocketSendAction::TagRename { old_tag: "a".to_string(), new_tag: "b".to_string(), time: None }]
    );
    let delete = Tag::Delete { tag: "a".to_string(), time: Some(9) };
    assert_eq!(tag::request(&delete).actions, vec![PocketSendAction::TagDelete { tag: "a".to_string(), time: Some(9) }]);
}
