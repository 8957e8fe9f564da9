//! The records that flow through the pipeline.

use vstd::prelude::*;
use vstd::string::*;

verus! {

/// One ingested content record.
#[derive(Debug)]
pub struct Article {
    title: String,
    url: String,
    source: String,
    description: Option<String>,
}

/// The mathematical content of an [`Article`].
pub struct ArticleView {
    pub title: Seq<char>,
    pub url: Seq<char>,
    pub source: Seq<char>,
    pub description: Option<Seq<char>>,
}

/// The text of an article that keywords are searched in: the title, followed
/// by one space and the description when there is one.
pub open spec fn searchable_text_of(a: ArticleView) -> Seq<char> {
    match a.description {
        Some(d) => a.title + seq![' '] + d,
        None => a.title,
    }
}

impl View for Article {
    type V = ArticleView;

    closed spec fn view(&self) -> ArticleView {
        ArticleView {
            title: self.title@,
            url: self.url@,
            source: self.source@,
            description: match self.description {
                Some(d) => Some(d@),
                None => None,
            },
        }
    }
}

impl Clone for Article {
    fn clone(&self) -> (res: Self)
        ensures
            res@ == self@,
    {
        Article {
            title: self.title.clone(),
            url: self.url.clone(),
            source: self.source.clone(),
            description: match &self.description {
                Some(d) => Some(d.clone()),
                None => None,
            },
        }
    }
}

impl Article {
    /// An article without a description.
    pub fn new(title: String, url: String, source: String) -> (res: Self)
        ensures
            res@ == (ArticleView { title: title@, url: url@, source: source@, description: None }),
    {
        Self { title, url, source, description: None }
    }

    /// The same article with `description` attached, replacing any earlier one.
    pub fn with_description(self, description: String) -> (res: Self)
        ensures
            res@ == (ArticleView { description: Some(description@), ..self@ }),
    {
        let mut article = self;
        article.description = Some(description);
        article
    }

    pub fn title(&self) -> (res: &str)
        ensures
            res@ == self@.title,
    {
        self.title.as_str()
    }

    pub fn url(&self) -> (res: &str)
        ensures
            res@ == self@.url,
    {
        self.url.as_str()
    }

    pub fn source(&self) -> (res: &str)
        ensures
            res@ == self@.source,
    {
        self.source.as_str()
    }

    pub fn description(&self) -> (res: Option<&str>)
        ensures
            res is Some <==> self@.description is Some,
            res matches Some(d) ==> self@.description == Some(d@),
    {
        match &self.description {
            Some(d) => Some(d.as_str()),
            None => None,
        }
    }

    /// The text that keywords are searched in.
    pub fn searchable_text(&self) -> (res: String)
        ensures
            res@ == searchable_text_of(self@),
    {
        let mut text = self.title.clone();
        match &self.description {
            Some(d) => {
                proof {
                    reveal_strlit(" ");
                }
                text.append(" ");
                text.append(d.as_str());
                assert(text@ =~= self@.title + seq![' '] + d@);
            },
            None => {},
        }
        text
    }
}

/// A story as the Hacker News item endpoint describes it.
#[derive(Debug)]
pub struct HackerNewsItem {
    pub id: u64,
    pub title: String,
    pub url: Option<String>,
    pub text: Option<String>,
}

} // verus!
