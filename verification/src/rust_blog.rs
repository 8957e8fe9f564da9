//! The Rust blog source: which links of its front page become articles.
//!
//! The page is taken apart by the `scraper` crate. This module decides what
//! is looked for in the page and what is made of what was found.

use vstd::prelude::*;
use vstd::string::*;
use scraper::{Html, Selector};
use crate::error::{AppError, AppErrorView};
use crate::metrics::{advanced, Metrics, MetricsView};
use crate::model::{Article, ArticleView};
use crate::text::{has_prefix, trim, trimmed};

verus! {

#[verifier::external_type_specification]
#[verifier::external_body]
pub struct ExSelector(scraper::Selector);

/// The link that stands for a post on the page: the text inside it and
/// the address it points to, if it has one.
#[derive(Debug)]
pub struct RawLink {
    pub text: String,
    pub href: Option<String>,
}

/// Whether `Selector::parse` accepts `css` as a group of CSS selectors.
pub uninterp spec fn selector_parses(css: Seq<char>) -> bool;

/// The text that a selector was parsed from.
pub uninterp spec fn selector_source(selector: Selector) -> Seq<char>;

/// What a search of `page` finds: for each element that the selector
/// `posts` selects, in document order, the first element below it that the
/// selector `links` selects, with its text and its attribute `attribute`, or
/// `None` where there is no such element. The two selectors are given by
/// the texts they were parsed from.
pub uninterp spec fn page_links(
    page: Seq<char>,
    posts: Seq<char>,
    links: Seq<char>,
    attribute: Seq<char>,
) -> Seq<Option<RawLink>>;

/// Calls `Selector::parse` and renders an error through its `Display`
/// impl.
///
/// Taken for granted: whether a text is accepted depends on the text
/// alone, and so does the selector that comes of it.
#[verifier::external_body]
fn parse_selector(css: &str) -> (res: Result<Selector, String>)
    ensures
        res is Ok <==> selector_parses(css@),
        res matches Ok(selector) ==> selector_source(selector) == css@,
{
    Selector::parse(css).map_err(|e| e.to_string())
}

/// Parses `page` with `Html::parse_document` and walks the elements that
/// `posts` selects, in document order. For each it takes the first
/// descendant that `links` selects, if there is one, and copies the
/// concatenated text below it and its attribute `attribute`.
///
/// Taken for granted: what is found depends on the page, the two
/// selectors and the attribute's name alone.
#[verifier::external_body]
fn first_links(page: &str, posts: &Selector, links: &Selector, attribute: &str) -> (found: Vec<
    Option<RawLink>,
>)
    ensures
        found@ == page_links(page@, selector_source(*posts), selector_source(*links), attribute@),
{
    let document = Html::parse_document(page);
    document.select(posts).map(
        |post|
            post.select(links).next().map(
                |link|
                    RawLink {
                        text: link.text().collect(),
                        href: link.value().attr(attribute).map(String::from),
                    },
            ),
    ).collect()
}

/// The name under which articles of this source are filed.
pub open spec fn source_name() -> Seq<char> {
    "Rust Blog"@
}

/// The address of the front page.
pub open spec fn front_page_address() -> Seq<char> {
    "https://blog.rust-lang.org/"@
}

/// The address that a link of the page points to: the link itself when it
/// begins with "http", and the link below the blog's own address otherwise.
pub open spec fn absolute_address(href: Seq<char>) -> Seq<char> {
    if "http"@.is_prefix_of(href) {
        href
    } else {
        "https://blog.rust-lang.org"@ + href
    }
}

/// The article that a link stands for. A link without an address, with an
/// empty address, or with no text but white space stands for none.
pub open spec fn link_article(text: Seq<char>, href: Option<Seq<char>>) -> Option<ArticleView> {
    match href {
        Some(address) => if address.len() == 0 || trimmed(text).len() == 0 {
            None
        } else {
            Some(
                ArticleView {
                    title: trimmed(text),
                    url: absolute_address(address),
                    source: source_name(),
                    description: None,
                },
            )
        },
        None => None,
    }
}

/// What is made of the post at one place of the page.
pub open spec fn post_article(found: Option<RawLink>) -> Option<ArticleView> {
    match found {
        Some(link) => link_article(
            link.text@,
            match link.href {
                Some(address) => Some(address@),
                None => None,
            },
        ),
        None => None,
    }
}

/// The articles that the posts of a page stand for, in page order.
pub open spec fn page_articles(found: Seq<Option<RawLink>>) -> Seq<ArticleView>
    decreases found.len(),
{
    if found.len() == 0 {
        Seq::empty()
    } else {
        let earlier = page_articles(found.drop_last());
        match post_article(found.last()) {
            Some(article) => earlier.push(article),
            None => earlier,
        }
    }
}

/// The contents of each article of `articles`.
pub open spec fn article_views(articles: Seq<Article>) -> Seq<ArticleView> {
    articles.map_values(|a: Article| a@)
}

pub fn front_page_url() -> (res: &'static str)
    ensures
        res@ == front_page_address(),
{
    "https://blog.rust-lang.org/"
}

/// Turns a link of the page into an article, if it stands for one.
pub fn article_from_link(text: &str, href: Option<&str>) -> (res: Option<Article>)
    ensures
        match res {
            Some(article) => link_article(
                text@,
                match href {
                    Some(address) => Some(address@),
                    None => None,
                },
            ) == Some(article@),
            None => link_article(
                text@,
                match href {
                    Some(address) => Some(address@),
                    None => None,
                },
            ) is None,
        },
{
    let title = trim(text);
    match href {
        Some(address) => {
            if address.is_empty() {
                return None;
            }
            let url = if has_prefix(address, "http") {
                String::from_str(address)
            } else {
                let mut url = String::from_str("https://blog.rust-lang.org");
                url.append(address);
                url
            };
            if title.is_empty() {
                return None;
            }
            Some(Article::new(String::from_str(title), url, String::from_str("Rust Blog")))
        },
        None => None,
    }
}

/// There are no more articles than posts.
pub proof fn lemma_page_articles_len(found: Seq<Option<RawLink>>)
    ensures
        page_articles(found).len() <= found.len(),
    decreases found.len(),
{
    if found.len() > 0 {
        lemma_page_articles_len(found.drop_last());
    }
}

/// Turns the posts found on a page into articles, in page order, and
/// counts each article as obtained. Posts that stand for no article are
/// passed over. A page without a single article is reported as such.
pub fn articles_from_posts(found: Vec<Option<RawLink>>, metrics: &mut Metrics) -> (res: Result<
    Vec<Article>,
    AppError,
>)
    ensures
        final(metrics)@ == (MetricsView {
            articles_fetched: advanced(
                old(metrics)@.articles_fetched,
                page_articles(found@).len(),
            ),
            ..old(metrics)@
        }),
        match res {
            Ok(articles) => article_views(articles@) == page_articles(found@) && articles@.len()
                > 0,
            Err(e) => page_articles(found@).len() == 0 && e@ == AppErrorView::NoArticlesError(
                source_name(),
            ),
        },
{
    let ghost all = found@;
    let ghost start = metrics@;
    let mut rest = found;
    let mut articles: Vec<Article> = Vec::new();
    let n = rest.len();
    let mut i: usize = 0;
    proof {
        assert(all.take(0) =~= Seq::<Option<RawLink>>::empty());
        assert(article_views(articles@) =~= Seq::<ArticleView>::empty());
        metrics.lemma_counts_fit();
    }
    while i < n
        invariant
            i <= n,
            n == all.len(),
            rest@ == all.skip(i as int),
            article_views(articles@) == page_articles(all.take(i as int)),
            metrics@ == (MetricsView {
                articles_fetched: advanced(
                    start.articles_fetched,
                    page_articles(all.take(i as int)).len(),
                ),
                ..start
            }),
        decreases n - i,
    {
        let post = rest.remove(0);
        proof {
            assert(post == all[i as int]);
            assert(all.take(i + 1).drop_last() =~= all.take(i as int));
            assert(rest@ =~= all.skip(i + 1));
            lemma_page_articles_len(all.take(i as int));
        }
        match post {
            Some(link) => {
                let href = match &link.href {
                    Some(address) => Some(address.as_str()),
                    None => None,
                };
                match article_from_link(link.text.as_str(), href) {
                    Some(article) => {
                        let ghost before = articles@;
                        articles.push(article);
                        metrics.record_article_fetched();
                        assert(article_views(articles@) =~= article_views(before).push(article@));
                    },
                    None => {},
                }
            },
            None => {},
        }
        i += 1;
    }
    assert(all.take(n as int) =~= all);
    if articles.len() == 0 {
        Err(AppError::NoArticlesError(String::from_str("Rust Blog")))
    } else {
        Ok(articles)
    }
}

/// The error for a selector that the page cannot be searched with; `what`
/// says which selector, `detail` is the parser's own account.
pub open spec fn selector_error(what: Seq<char>, detail: Seq<char>) -> AppErrorView {
    AppErrorView::ParseError { origin: source_name(), message: what + detail }
}

fn selector_failure(what: &str, detail: &str) -> (res: AppError)
    ensures
        res@ == selector_error(what@, detail@),
{
    let mut message = String::from_str(what);
    message.append(detail);
    AppError::parse_error("Rust Blog", message.as_str())
}

/// The selector that picks the posts of the front page.
pub open spec fn post_selector() -> Seq<char> {
    "article.post, div.post, section.post"@
}

/// The selector that picks, inside a post, the link that stands for it.
pub open spec fn title_selector() -> Seq<char> {
    "h2 a, h3 a, .post-title a"@
}

/// The links that stand for the posts of `page`, post by post.
pub open spec fn front_page_links(page: Seq<char>) -> Seq<Option<RawLink>> {
    page_links(page, post_selector(), title_selector(), "href"@)
}

/// Finds the posts on the front page and turns them into articles.
///
/// A post is an element `article.post`, `div.post` or `section.post`; its
/// link is the first `a` below an `h2`, an `h3` or an element of class
/// `post-title` inside it. What is made of the links is what
/// [`articles_from_posts`] makes of them. The result is an error only when no
/// post stands for an article, or when `scraper` refuses one of the two
/// selectors; a refused selector leaves the counters as they were.
pub fn blog_articles(page: &str, metrics: &mut Metrics) -> (res: Result<Vec<Article>, AppError>)
    ensures
        !selector_parses(post_selector()) ==> {
            &&& final(metrics)@ == old(metrics)@
            &&& res matches Err(e) && exists|detail: Seq<char>|
                e@ == selector_error("Invalid article selector: "@, detail)
        },
        selector_parses(post_selector()) && !selector_parses(title_selector()) ==> {
            &&& final(metrics)@ == old(metrics)@
            &&& res matches Err(e) && exists|detail: Seq<char>|
                e@ == selector_error("Invalid title selector: "@, detail)
        },
        selector_parses(post_selector()) && selector_parses(title_selector()) ==> {
            &&& final(metrics)@ == (MetricsView {
                articles_fetched: advanced(
                    old(metrics)@.articles_fetched,
                    page_articles(front_page_links(page@)).len(),
                ),
                ..old(metrics)@
            })
            &&& match res {
                Ok(articles) => article_views(articles@) == page_articles(
                    front_page_links(page@),
                ) && articles@.len() > 0,
                Err(e) => page_articles(front_page_links(page@)).len() == 0 && e@
                    == AppErrorView::NoArticlesError(source_name()),
            }
        },
{
    let posts = match parse_selector("article.post, div.post, section.post") {
        Ok(selector) => selector,
        Err(detail) => {
            return Err(selector_failure("Invalid article selector: ", detail.as_str()));
        },
    };
    let links = match parse_selector("h2 a, h3 a, .post-title a") {
        Ok(selector) => selector,
        Err(detail) => {
            return Err(selector_failure("Invalid title selector: ", detail.as_str()));
        },
    };
    let found = first_links(page, &posts, &links, "href");
    articles_from_posts(found, metrics)
}

} // verus!
