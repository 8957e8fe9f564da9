//! The Hacker News source: where its stories are listed, where one story
//! is found, and how a story becomes an article.

use vstd::prelude::*;
use vstd::string::*;
use crate::error::{AppError, AppErrorView};
use crate::fetcher::{capped_targets, limit_targets};
use crate::model::{Article, ArticleView, HackerNewsItem};
use crate::text::{append_decimal, decimal};

verus! {

#[verifier::external_type_specification]
#[verifier::external_body]
pub struct ExJsonError(serde_json::Error);

/// The list of numbers that `text` denotes when it is read as a JSON array
/// of unsigned 64-bit integers, or `None` when it is not one.
pub uninterp spec fn json_u64_list(text: Seq<char>) -> Option<Seq<u64>>;

/// Calls `serde_json::from_str` for a `Vec<u64>`.
///
/// Taken for granted: whether the text is accepted, and the numbers read
/// from it, depend on the text alone.
#[verifier::external_body]
fn parse_u64_list(text: &str) -> (res: Result<Vec<u64>, serde_json::Error>)
    ensures
        match res {
            Ok(ids) => json_u64_list(text@) == Some(ids@),
            Err(_) => json_u64_list(text@) is None,
        },
{
    serde_json::from_str::<Vec<u64>>(text)
}

/// Renders a `serde_json::Error` through its `Display` impl.
#[verifier::external_body]
fn json_error_text(e: &serde_json::Error) -> (res: String)
{
    e.to_string()
}

/// The name under which articles of this source are filed.
pub open spec fn source_name() -> Seq<char> {
    "HackerNews"@
}

/// The address of the list of top stories.
pub open spec fn top_stories_address() -> Seq<char> {
    "https://hacker-news.firebaseio.com/v0/topstories.json"@
}

/// The address of the story with number `id`.
pub open spec fn item_address(id: nat) -> Seq<char> {
    "https://hacker-news.firebaseio.com/v0/item/"@ + decimal(id) + ".json"@
}

/// The address of the discussion of the story with number `id`.
pub open spec fn discussion_address(id: nat) -> Seq<char> {
    "https://news.ycombinator.com/item?id="@ + decimal(id)
}

/// The article that a story stands for. A story without a link of its
/// own points to its discussion.
pub open spec fn story_article(item: HackerNewsItem) -> ArticleView {
    ArticleView {
        title: item.title@,
        url: match item.url {
            Some(url) => url@,
            None => discussion_address(item.id as nat),
        },
        source: source_name(),
        description: match item.text {
            Some(text) => Some(text@),
            None => None,
        },
    }
}

pub fn top_stories_url() -> (res: &'static str)
    ensures
        res@ == top_stories_address(),
{
    "https://hacker-news.firebaseio.com/v0/topstories.json"
}

pub fn item_url(id: u64) -> (res: String)
    ensures
        res@ == item_address(id as nat),
{
    let mut url = String::from_str("https://hacker-news.firebaseio.com/v0/item/");
    append_decimal(&mut url, id);
    url.append(".json");
    url
}

pub fn discussion_url(id: u64) -> (res: String)
    ensures
        res@ == discussion_address(id as nat),
{
    let mut url = String::from_str("https://news.ycombinator.com/item?id=");
    append_decimal(&mut url, id);
    url
}

/// Turns a story into an article.
pub fn article_from_item(item: HackerNewsItem) -> (res: Article)
    ensures
        res@ == story_article(item),
{
    let HackerNewsItem { id, title, url, text } = item;
    let link = match url {
        Some(url) => url,
        None => discussion_url(id),
    };
    let article = Article::new(title, link, String::from_str("HackerNews"));
    match text {
        Some(text) => article.with_description(text),
        None => article,
    }
}

/// The error for a list of top stories that cannot be read; `detail` is the
/// parser's own account of the failure.
pub open spec fn listing_error(detail: Seq<char>) -> AppErrorView {
    AppErrorView::ParseError { origin: "HackerNews top stories"@, message: detail }
}

/// The error for a story whose payload cannot be read; `detail` is the
/// parser's own account of the failure.
pub open spec fn item_error_view(detail: Seq<char>) -> AppErrorView {
    AppErrorView::ParseError { origin: "HackerNews item"@, message: detail }
}

/// The error for a story whose payload cannot be read.
pub fn item_error(detail: &str) -> (res: AppError)
    ensures
        res@ == item_error_view(detail@),
{
    AppError::parse_error("HackerNews item", detail)
}

/// Decides the work list from the outcome of reading the list of top
/// stories: the first `limit` stories of a list that was read, and a parse
/// error for one that was not.
pub fn targets_from_listing(listing: Result<Vec<u64>, String>, limit: usize) -> (res: Result<
    Vec<u64>,
    AppError,
>)
    ensures
        match listing {
            Ok(ids) => res matches Ok(targets) && targets@ == capped_targets(ids@, limit as nat),
            Err(detail) => res matches Err(e) && e@ == listing_error(detail@),
        },
{
    match listing {
        Ok(ids) => Ok(limit_targets(ids, limit)),
        Err(detail) => Err(AppError::parse_error("HackerNews top stories", detail.as_str())),
    }
}

/// Reads the list of top stories from the payload of its address and cuts
/// it down to the first `limit` stories.
pub fn story_targets(body: &str, limit: usize) -> (res: Result<Vec<u64>, AppError>)
    ensures
        match json_u64_list(body@) {
            Some(ids) => res matches Ok(targets) && targets@ == capped_targets(ids, limit as nat),
            None => res matches Err(e) && exists|detail: Seq<char>| e@ == listing_error(detail),
        },
{
    let listing = match parse_u64_list(body) {
        Ok(ids) => Ok(ids),
        Err(e) => Err(json_error_text(&e)),
    };
    targets_from_listing(listing, limit)
}

} // verus!
