//! Relevance of articles to a list of keywords.
//!
//! One matcher is built from the keywords and shared by all articles. For
//! each article it yields, per keyword, how often the keyword occurs in the
//! article's text; a keyword is matched when it occurs at least once. From
//! these counts the caller derives the score, the sum over the matched
//! keywords of `1 + ln(count)`: the counts are what this module pins down.

use vstd::prelude::*;
use vstd::string::*;
use vstd::slice::slice_subrange;
use vstd::seq_lib::{to_multiset_build, to_multiset_len};
use vstd::multiset::axiom_count_le_len;
use rayon::iter::{IntoParallelIterator, ParallelIterator};
use crate::error::{AppError, AppErrorView};
use crate::matcher::{
    build_error_text, build_matcher, find_pattern_ids, fold_all, fold_case, ids_of, keyword_hits,
    matcher_builds, matcher_patterns, texts, Matcher,
};
use crate::model::{searchable_text_of, Article, ArticleView};

verus! {

/// Only this many keywords, counted from the first, take part in scoring.
/// The bound caps the size of the matcher.
pub const MAX_KEY_WORD_COUNT: usize = 20;

/// An article with what matching found in it.
#[derive(Debug)]
pub struct ScoredArticle {
    article: Article,
    occurrences: Vec<usize>,
    matched_keywords: Vec<String>,
}

/// The mathematical content of a [`ScoredArticle`].
pub struct ScoredArticleView {
    pub article: ArticleView,
    /// For each keyword that took part, how often it occurs.
    pub occurrences: Seq<nat>,
    /// The keywords that occur at least once, in keyword order.
    pub matched_keywords: Seq<Seq<char>>,
}

/// The keywords that take part in scoring: the first `MAX_KEY_WORD_COUNT`.
pub open spec fn considered(keywords: Seq<Seq<char>>) -> Seq<Seq<char>> {
    if keywords.len() <= MAX_KEY_WORD_COUNT {
        keywords
    } else {
        keywords.take(MAX_KEY_WORD_COUNT as int)
    }
}

/// How many entries of `hits` name the keyword at position `id`.
pub open spec fn occurrences(hits: Seq<int>, id: int) -> nat {
    hits.to_multiset().count(id)
}

/// The occurrence count of each of `n` keywords.
pub open spec fn occurrence_counts(hits: Seq<int>, n: nat) -> Seq<nat> {
    Seq::new(n, |k: int| occurrences(hits, k))
}

/// The counts of `counts` as natural numbers.
pub open spec fn nat_counts(counts: Seq<usize>) -> Seq<nat> {
    counts.map_values(|c: usize| c as nat)
}

/// Those of the first `n` keywords whose count is positive, in keyword order.
pub open spec fn matched_among(keywords: Seq<Seq<char>>, counts: Seq<nat>, n: nat) -> Seq<
    Seq<char>,
>
    decreases n,
{
    if n == 0 {
        Seq::empty()
    } else {
        let earlier = matched_among(keywords, counts, (n - 1) as nat);
        if counts[n - 1] > 0 {
            earlier.push(keywords[n - 1])
        } else {
            earlier
        }
    }
}

/// The keywords whose count is positive, in keyword order. `counts` holds
/// one count per keyword.
pub open spec fn matched_of(keywords: Seq<Seq<char>>, counts: Seq<nat>) -> Seq<Seq<char>> {
    matched_among(keywords, counts, keywords.len())
}

/// What scoring `article` against `keywords` yields.
pub open spec fn scored(article: ArticleView, keywords: Seq<Seq<char>>) -> ScoredArticleView {
    let used = considered(keywords);
    let counts = occurrence_counts(keyword_hits(used, searchable_text_of(article)), used.len());
    ScoredArticleView {
        article,
        occurrences: counts,
        matched_keywords: matched_of(used, counts),
    }
}

impl View for ScoredArticle {
    type V = ScoredArticleView;

    closed spec fn view(&self) -> ScoredArticleView {
        ScoredArticleView {
            article: self.article@,
            occurrences: nat_counts(self.occurrences@),
            matched_keywords: texts(self.matched_keywords@),
        }
    }
}

impl Clone for ScoredArticle {
    fn clone(&self) -> (res: Self)
        ensures
            res@ == self@,
    {
        let mut occurrences: Vec<usize> = Vec::new();
        let mut i: usize = 0;
        while i < self.occurrences.len()
            invariant
                i <= self.occurrences@.len(),
                occurrences@ == self.occurrences@.take(i as int),
            decreases self.occurrences@.len() - i,
        {
            occurrences.push(self.occurrences[i]);
            assert(occurrences@ =~= self.occurrences@.take(i + 1));
            i += 1;
        }
        let mut matched_keywords: Vec<String> = Vec::new();
        let mut k: usize = 0;
        while k < self.matched_keywords.len()
            invariant
                k <= self.matched_keywords@.len(),
                texts(matched_keywords@) == texts(self.matched_keywords@).take(k as int),
            decreases self.matched_keywords@.len() - k,
        {
            let ghost before = matched_keywords@;
            let keyword = self.matched_keywords[k].clone();
            matched_keywords.push(keyword);
            assert(texts(matched_keywords@) =~= texts(before).push(
                self.matched_keywords@[k as int]@,
            ));
            assert(texts(matched_keywords@) =~= texts(self.matched_keywords@).take(k + 1));
            k += 1;
        }
        assert(occurrences@ =~= self.occurrences@);
        assert(texts(matched_keywords@) =~= texts(self.matched_keywords@));
        ScoredArticle { article: self.article.clone(), occurrences, matched_keywords }
    }
}

impl ScoredArticle {
    pub fn article(&self) -> (res: &Article)
        ensures
            res@ == self@.article,
    {
        &self.article
    }

    /// For each keyword that took part in scoring, in keyword order, how
    /// often it occurs in the article's text.
    pub fn occurrences(&self) -> (res: &[usize])
        ensures
            nat_counts(res@) == self@.occurrences,
    {
        self.occurrences.as_slice()
    }

    pub fn matched_keywords(&self) -> (res: &[String])
        ensures
            texts(res@) == self@.matched_keywords,
    {
        self.matched_keywords.as_slice()
    }
}

/// Counts, for each of `n` keywords, the hits that name it. A hit that
/// names no keyword below `n` counts for none.
pub fn tally(hits: &Vec<usize>, n: usize) -> (counts: Vec<usize>)
    ensures
        nat_counts(counts@) == occurrence_counts(ids_of(hits@), n as nat),
{
    let ghost ids = ids_of(hits@);
    let mut counts: Vec<usize> = vec![0; n];
    let mut i: usize = 0;
    assert forall|k: int| occurrences(ids.take(0), k) == 0 by {
        to_multiset_len(ids.take(0));
        axiom_count_le_len(ids.take(0).to_multiset(), k);
    }
    while i < hits.len()
        invariant
            ids == ids_of(hits@),
            i <= hits.len(),
            counts@.len() == n,
            forall|k: int| 0 <= k < n ==> counts@[k] as nat == occurrences(ids.take(i as int), k),
        decreases hits.len() - i,
    {
        let id = hits[i];
        proof {
            let seen = ids.take(i as int);
            assert(ids.take(i + 1) =~= seen.push(id as int));
            to_multiset_build(seen, id as int);
            to_multiset_len(seen);
            axiom_count_le_len(seen.to_multiset(), id as int);
        }
        if id < n {
            let bumped = counts[id] + 1;
            counts[id] = bumped;
        }
        i += 1;
    }
    assert(ids.take(hits.len() as int) =~= ids);
    assert(nat_counts(counts@) =~= occurrence_counts(ids, n as nat));
    counts
}

/// Picks the keywords whose count is positive, keeping keyword order.
pub fn select_matched(keywords: &[String], counts: &Vec<usize>) -> (matched: Vec<String>)
    requires
        counts@.len() == keywords@.len(),
    ensures
        texts(matched@) == matched_of(texts(keywords@), nat_counts(counts@)),
{
    let mut matched: Vec<String> = Vec::new();
    let mut i: usize = 0;
    assert(texts(matched@) =~= Seq::<Seq<char>>::empty());
    while i < keywords.len()
        invariant
            i <= keywords.len(),
            counts@.len() == keywords@.len(),
            texts(matched@) == matched_among(texts(keywords@), nat_counts(counts@), i as nat),
        decreases keywords.len() - i,
    {
        if counts[i] > 0 {
            let ghost before = matched@;
            let keyword = keywords[i].clone();
            matched.push(keyword);
            assert(texts(matched@) =~= texts(before).push(keywords@[i as int]@));
        }
        i += 1;
    }
    matched
}

/// Turns the hits of one search into the per-keyword counts and the list of
/// matched keywords. `keywords` are the keywords that took part in the
/// search; `hits` names, for each match, the position of its keyword.
pub fn relevance_from_hits(hits: &Vec<usize>, keywords: &[String]) -> (res: (
    Vec<usize>,
    Vec<String>,
))
    ensures
        nat_counts(res.0@) == occurrence_counts(ids_of(hits@), keywords@.len()),
        texts(res.1@) == matched_of(texts(keywords@), nat_counts(res.0@)),
{
    let counts = tally(hits, keywords.len());
    assert(nat_counts(counts@).len() == keywords@.len());
    let matched = select_matched(keywords, &counts);
    (counts, matched)
}

/// The first `MAX_KEY_WORD_COUNT` of `keywords`.
pub fn considered_keywords(keywords: &[String]) -> (used: &[String])
    ensures
        texts(used@) == considered(texts(keywords@)),
{
    if keywords.len() <= MAX_KEY_WORD_COUNT {
        keywords
    } else {
        let used = slice_subrange(keywords, 0, MAX_KEY_WORD_COUNT);
        assert(texts(used@) =~= texts(keywords@).take(MAX_KEY_WORD_COUNT as int));
        used
    }
}

/// Searches the text of `article` with `ac` and reports the per-keyword
/// counts and the matched keywords.
pub fn calculate_relevance(article: &Article, ac: &Matcher, keywords: &[String]) -> (res: (
    Vec<usize>,
    Vec<String>,
))
    requires
        matcher_patterns(*ac) == considered(texts(keywords@)),
    ensures
        nat_counts(res.0@) == scored(article@, texts(keywords@)).occurrences,
        texts(res.1@) == scored(article@, texts(keywords@)).matched_keywords,
{
    let used = considered_keywords(keywords);
    let text = article.searchable_text();
    let hits = find_pattern_ids(ac, text.as_str());
    relevance_from_hits(&hits, used)
}

/// Scores one article with a matcher that was built from the keywords that
/// take part.
pub fn score_article(article: Article, ac: &Matcher, keywords: &[String]) -> (res:
    ScoredArticle)
    requires
        matcher_patterns(*ac) == considered(texts(keywords@)),
    ensures
        res@ == scored(article@, texts(keywords@)),
{
    let (occurrences, matched_keywords) = calculate_relevance(&article, ac, keywords);
    ScoredArticle { article, occurrences, matched_keywords }
}

/// Hands the articles to rayon's `into_par_iter().map(..).collect()`, with
/// [`score_article`] as the function applied to each.
///
/// Taken for granted: `map` applies the function to every item, and
/// collecting into a `Vec` keeps the items in the order of the input.
#[verifier::external_body]
fn score_in_parallel(articles: Vec<Article>, ac: &Matcher, keywords: &[String]) -> (res: Vec<
    ScoredArticle,
>)
    requires
        matcher_patterns(*ac) == considered(texts(keywords@)),
    ensures
        res@.len() == articles@.len(),
        forall|i: int|
            0 <= i < res@.len() ==> (#[trigger] res@[i])@ == scored(
                articles@[i]@,
                texts(keywords@),
            ),
{
    articles.into_par_iter().map(|article| score_article(article, ac, keywords)).collect()
}

/// Scores every article with a matcher that was built from the keywords
/// that take part. The result has one entry per article, in the same order.
pub fn score_with_matcher(articles: Vec<Article>, ac: &Matcher, keywords: &[String]) -> (res:
    Vec<ScoredArticle>)
    requires
        matcher_patterns(*ac) == considered(texts(keywords@)),
    ensures
        res@.len() == articles@.len(),
        forall|i: int|
            0 <= i < res@.len() ==> (#[trigger] res@[i])@ == scored(
                articles@[i]@,
                texts(keywords@),
            ),
{
    score_in_parallel(articles, ac, keywords)
}

/// The error reported when the matcher cannot be built; `detail` is the
/// builder's own account of the failure.
pub fn matcher_failure(detail: &str) -> (res: AppError)
    ensures
        res@ == AppErrorView::AnalyzerError("failed to build AC: "@ + detail@),
{
    let mut text = String::from_str("failed to build AC: ");
    text.append(detail);
    AppError::AnalyzerError(text)
}

/// Builds the matcher for the keywords that take part in scoring. This is
/// the way to a matcher that the scoring functions accept for `keywords`.
pub fn keyword_matcher(keywords: &[String]) -> (res: Result<Matcher, AppError>)
    ensures
        res is Ok <==> matcher_builds(considered(texts(keywords@))),
        match res {
            Ok(matcher) => matcher_patterns(matcher) == considered(texts(keywords@)),
            Err(e) => exists|detail: Seq<char>|
                e@ == AppErrorView::AnalyzerError("failed to build AC: "@ + detail),
        },
{
    let used = considered_keywords(keywords);
    match build_matcher(used) {
        Ok(matcher) => Ok(matcher),
        Err(e) => {
            let detail = build_error_text(&e);
            Err(matcher_failure(detail.as_str()))
        },
    }
}

/// Whether articles can be scored against `keywords`: there is a keyword,
/// and a matcher can be built for the keywords that take part.
pub open spec fn can_score(keywords: Seq<Seq<char>>) -> bool {
    keywords.len() > 0 && matcher_builds(considered(keywords))
}

/// Scores every article against `keywords`.
///
/// Without keywords there is nothing to score against, which is an error
/// of the configuration rather than a score of zero. Otherwise scoring
/// succeeds exactly when a matcher can be built for the keywords that take
/// part.
pub fn score_articles(articles: Vec<Article>, keywords: &[String]) -> (res: Result<
    Vec<ScoredArticle>,
    AppError,
>)
    ensures
        keywords@.len() == 0 ==> (res matches Err(e) && e@ == AppErrorView::ConfigError(
            "no keywords configured"@,
        )),
        res is Ok <==> can_score(texts(keywords@)),
        match res {
            Ok(all) => {
                &&& all@.len() == articles@.len()
                &&& forall|i: int|
                    0 <= i < all@.len() ==> (#[trigger] all@[i])@ == scored(
                        articles@[i]@,
                        texts(keywords@),
                    )
            },
            Err(e) => keywords@.len() > 0 ==> exists|detail: Seq<char>|
                e@ == AppErrorView::AnalyzerError("failed to build AC: "@ + detail),
        },
{
    if keywords.len() == 0 {
        return Err(AppError::ConfigError(String::from_str("no keywords configured")));
    }
    match keyword_matcher(keywords) {
        Ok(matcher) => Ok(score_with_matcher(articles, &matcher, keywords)),
        Err(e) => Err(e),
    }
}

/// The positions, among the first `n` keywords, of those whose count is
/// positive, in rising order.
pub open spec fn matched_positions(counts: Seq<nat>, n: nat) -> Seq<int>
    decreases n,
{
    if n == 0 {
        Seq::empty()
    } else {
        let earlier = matched_positions(counts, (n - 1) as nat);
        if counts[n - 1] > 0 {
            earlier.push(n - 1)
        } else {
            earlier
        }
    }
}

/// The matched keywords stand in the order of the keyword list, whatever
/// the order in which the text brought them up: they are the keywords at
/// the positions with a positive count, position by rising position, and
/// every such position is among them.
pub proof fn lemma_matched_in_keyword_order(keywords: Seq<Seq<char>>, counts: Seq<nat>, n: nat)
    requires
        n <= keywords.len(),
        n <= counts.len(),
    ensures
        ({
            let at = matched_positions(counts, n);
            let matched = matched_among(keywords, counts, n);
            &&& matched.len() == at.len()
            &&& forall|j: int| 0 <= j < at.len() ==> 0 <= #[trigger] at[j] < n && counts[at[j]] > 0
            &&& forall|j: int| 0 <= j < at.len() ==> #[trigger] matched[j] == keywords[at[j]]
            &&& forall|i: int, j: int| 0 <= i < j < at.len() ==> at[i] < at[j]
            &&& forall|k: int| 0 <= k < n && counts[k] > 0 ==> at.contains(k)
        }),
    decreases n,
{
    if n > 0 {
        lemma_matched_in_keyword_order(keywords, counts, (n - 1) as nat);
        let earlier = matched_positions(counts, (n - 1) as nat);
        let at = matched_positions(counts, n);
        assert forall|k: int| 0 <= k < n && counts[k] > 0 implies at.contains(k) by {
            if k < n - 1 {
                assert(earlier.contains(k));
                let j = choose|j: int| 0 <= j < earlier.len() && earlier[j] == k;
                assert(at[j] == k);
            } else {
                assert(at[at.len() - 1] == k);
            }
        }
    }
}

/// Where no keyword occurs, no keyword is matched: the score is a sum of
/// nothing.
pub proof fn lemma_nothing_found_nothing_matched(keywords: Seq<Seq<char>>, counts: Seq<nat>)
    requires
        counts.len() == keywords.len(),
        forall|k: int| 0 <= k < counts.len() ==> counts[k] == 0,
    ensures
        matched_of(keywords, counts) == Seq::<Seq<char>>::empty(),
{
    lemma_matched_in_keyword_order(keywords, counts, keywords.len());
    let at = matched_positions(counts, keywords.len());
    if at.len() > 0 {
        assert(counts[at[0]] > 0);
    }
    assert(matched_of(keywords, counts) =~= Seq::<Seq<char>>::empty());
}

/// An article whose text holds no match of any keyword has a count of zero
/// for every keyword and an empty list of matched keywords.
pub proof fn lemma_unmatched_article(article: ArticleView, keywords: Seq<Seq<char>>)
    requires
        keyword_hits(considered(keywords), searchable_text_of(article)).len() == 0,
    ensures
        scored(article, keywords).matched_keywords == Seq::<Seq<char>>::empty(),
        forall|k: int|
            0 <= k < considered(keywords).len() ==> scored(article, keywords).occurrences[k] == 0,
{
    let used = considered(keywords);
    let hits = keyword_hits(used, searchable_text_of(article));
    let counts = occurrence_counts(hits, used.len());
    assert forall|k: int| 0 <= k < counts.len() implies counts[k] == 0 by {
        to_multiset_len(hits);
        axiom_count_le_len(hits.to_multiset(), k);
    }
    lemma_nothing_found_nothing_matched(used, counts);
}

/// One more occurrence of a keyword raises the count of that keyword by
/// one and leaves every other count as it was. Each keyword adds to the
/// score by its own count alone, and no less for a higher count, so a
/// score never falls when an occurrence is added.
pub proof fn lemma_one_more_occurrence(hits: Seq<int>, id: int, n: nat)
    requires
        0 <= id < n,
    ensures
        occurrence_counts(hits.push(id), n) == occurrence_counts(hits, n).update(
            id,
            occurrence_counts(hits, n)[id] + 1,
        ),
{
    to_multiset_build(hits, id);
    assert(occurrence_counts(hits.push(id), n) =~= occurrence_counts(hits, n).update(
        id,
        occurrence_counts(hits, n)[id] + 1,
    ));
}

/// Scoring does not look at the case of ASCII letters, neither in the text
/// nor in the keywords: two articles whose texts differ in case only,
/// scored against keyword lists that differ in case only, get the same
/// counts, and keywords are matched at the same positions. As the score
/// is made of the counts alone, it is the same for both.
pub proof fn lemma_case_insensitive(
    a: ArticleView,
    b: ArticleView,
    keywords_a: Seq<Seq<char>>,
    keywords_b: Seq<Seq<char>>,
)
    requires
        fold_case(searchable_text_of(a)) == fold_case(searchable_text_of(b)),
        fold_all(keywords_a) == fold_all(keywords_b),
    ensures
        scored(a, keywords_a).occurrences == scored(b, keywords_b).occurrences,
        matched_positions(scored(a, keywords_a).occurrences, considered(keywords_a).len())
            == matched_positions(
            scored(b, keywords_b).occurrences,
            considered(keywords_b).len(),
        ),
        fold_all(scored(a, keywords_a).matched_keywords) == fold_all(
            scored(b, keywords_b).matched_keywords,
        ),
{
    let used_a = considered(keywords_a);
    let used_b = considered(keywords_b);
    assert(keywords_a.len() == keywords_b.len()) by {
        assert(fold_all(keywords_a).len() == keywords_a.len());
        assert(fold_all(keywords_b).len() == keywords_b.len());
    }
    assert(fold_all(used_a) =~= fold_all(used_b)) by {
        assert forall|k: int| 0 <= k < used_a.len() implies fold_all(used_a)[k] == fold_all(
            used_b,
        )[k] by {
            assert(fold_all(keywords_a)[k] == fold_case(keywords_a[k]));
            assert(fold_all(keywords_b)[k] == fold_case(keywords_b[k]));
        }
    }
    let counts = scored(a, keywords_a).occurrences;
    assert(counts == scored(b, keywords_b).occurrences);
    lemma_fold_matched(used_a, used_b, counts, used_a.len());
}

proof fn lemma_fold_matched(a: Seq<Seq<char>>, b: Seq<Seq<char>>, counts: Seq<nat>, n: nat)
    requires
        n <= a.len(),
        a.len() == b.len(),
        fold_all(a) == fold_all(b),
    ensures
        fold_all(matched_among(a, counts, n)) == fold_all(matched_among(b, counts, n)),
    decreases n,
{
    if n == 0 {
        assert(fold_all(matched_among(a, counts, n)) =~= fold_all(matched_among(b, counts, n)));
    } else {
        lemma_fold_matched(a, b, counts, (n - 1) as nat);
        let earlier_a = matched_among(a, counts, (n - 1) as nat);
        let earlier_b = matched_among(b, counts, (n - 1) as nat);
        assert(fold_all(a)[n - 1] == fold_case(a[n - 1]));
        assert(fold_all(b)[n - 1] == fold_case(b[n - 1]));
        if counts[n - 1] > 0 {
            assert(fold_all(earlier_a.push(a[n - 1])) =~= fold_all(earlier_a).push(
                fold_case(a[n - 1]),
            ));
            assert(fold_all(earlier_b.push(b[n - 1])) =~= fold_all(earlier_b).push(
                fold_case(b[n - 1]),
            ));
        }
    }
}

} // verus!
