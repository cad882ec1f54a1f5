//! The `add` subcommand: save a link.
use vstd::prelude::*;
use crate::facade::{PocketAddRequest, PocketAddedItem, PocketError};
use crate::models::{Item, item_from_added};

verus! {

/// The options of `add`. `url` is the link as given, already checked to be
/// a URL and serialised.
#[derive(Debug, Clone, PartialEq, Eq)]
pub struct AddOpts {
    pub url: String,
    pub title: Option<String>,
    pub tags: Option<Vec<String>>,
    pub tweet_id: Option<String>,
}

/// The request that saves the link of `opts`, with its title, tags and
/// tweet as given.
pub fn request(opts: AddOpts) -> (r: PocketAddRequest)
    ensures
        r.url == opts.url,
        r.title == opts.title,
        r.tags == opts.tags,
        r.tweet_id == opts.tweet_id,
{
    PocketAddRequest { url: opts.url, title: opts.title, tags: opts.tags, tweet_id: opts.tweet_id }
}

/// Finishes `add` with the service's answer: the saved item as the output
/// model, or the service's error, in which case nothing is to be printed.
pub fn handle(reply: Result<PocketAddedItem, PocketError>) -> (r: Result<Item, PocketError>)
    ensures
        reply is Ok <==> r is Ok,
        reply is Ok ==> item_from_added(reply->Ok_0, r->Ok_0),
        reply is Err ==> r->Err_0 == reply->Err_0,
{
    match reply {
        Ok(p) => Ok(Item::from(p)),
        Err(e) => Err(e),
    }
}

} // verus!
