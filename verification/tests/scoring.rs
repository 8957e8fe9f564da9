use article_aggregator::analyzer::{
    calculate_relevance, considered_keywords, keyword_matcher, relevance_from_hits,
    score_article, score_articles, score_with_matcher, tally, ScoredArticle, MAX_KEY_WORD_COUNT,
};
use article_aggregator::error::AppError;
use article_aggregator::model::Article;

fn article(title: &str) -> Article {
    Article::new(title.to_string(), "https://example.org/a".to_string(), "test".to_string())
}

fn keywords(words: &[&str]) -> Vec<String> {
    words.iter().map(|w| w.to_string()).collect()
}

/// The score that belongs to a list of per-keyword counts: the sum over the
/// matched keywords of `1 + ln(count)`, or zero if that is not finite.
fn score_of(scored: &ScoredArticle) -> f64 {
    let mut total = 0.0;
    for &count in scored.occurrences() {
        if count > 0 {
            total += 1.0 + (count as f64).ln();
        }
    }
    if total.is_finite() {
        total
    } else {
        0.0
    }
}

fn score_one(title: &str, words: &[&str]) -> ScoredArticle {
    let kws = keywords(words);
    score_articles(vec![article(title)], &kws).unwrap().remove(0)
}

#[test]
fn two_keywords_once_each_score_two() {
    let kws = keywords(&["rust", "async"]);
    let scored = score_articles(
        vec![article("Rust async performance"), article("Python tutorial")],
        &kws,
    )
    .unwrap();
    assert_eq!(scored.len(), 2);
    assert_eq!(scored[0].article().title(), "Rust async performance");
    assert_eq!(scored[0].occurrences(), &[1, 1]);
    assert_eq!(scored[0].matched_keywords(), &["rust".to_string(), "async".to_string()]);
    assert_eq!(score_of(&scored[0]), 2.0);
    assert_eq!(scored[1].article().title(), "Python tutorial");
    assert_eq!(scored[1].occurrences(), &[0, 0]);
    assert!(scored[1].matched_keywords().is_empty());
    assert_eq!(score_of(&scored[1]), 0.0);
}

#[test]
fn no_keywords_is_an_error() {
    let res = score_articles(vec![article("Rust")], &[]);
    match res {
        Err(AppError::ConfigError(text)) => assert_eq!(text, "no keywords configured"),
        other => panic!("unexpected: {:?}", other),
    }
}

#[test]
fn no_articles_give_no_scores() {
    let scored = score_articles(Vec::new(), &keywords(&["rust"])).unwrap();
    assert!(scored.is_empty());
}

#[test]
fn nothing_found_scores_zero() {
    let scored = score_one("Gardening in spring", &["rust", "async", "tokio"]);
    assert_eq!(scored.occurrences(), &[0, 0, 0]);
    assert!(scored.matched_keywords().is_empty());
    assert_eq!(score_of(&scored), 0.0);
}

#[test]
fn repetition_scores_less_than_variety() {
    let repeated = score_one("rust rust rust", &["rust", "async", "tokio"]);
    let varied = score_one("rust async tokio", &["rust", "async", "tokio"]);
    assert_eq!(repeated.occurrences(), &[3, 0, 0]);
    assert_eq!(varied.occurrences(), &[1, 1, 1]);
    assert_eq!(score_of(&repeated), 1.0 + 3.0f64.ln());
    assert_eq!(score_of(&varied), 3.0);
    assert!(score_of(&repeated) < score_of(&varied));
    let twice = score_one("rust rust", &["rust", "async"]);
    let both = score_one("rust async", &["rust", "async"]);
    assert!(score_of(&twice) < score_of(&both));
}

#[test]
fn one_more_occurrence_never_lowers_the_score() {
    let mut text = String::new();
    let mut last = 0.0;
    for n in 1..=6 {
        if n > 1 {
            text.push(' ');
        }
        text.push_str("rust");
        let scored = score_one(&text, &["rust"]);
        assert_eq!(scored.occurrences(), &[n]);
        let score = score_of(&scored);
        assert_eq!(score, 1.0 + (n as f64).ln());
        assert!(score >= last);
        last = score;
    }
}

#[test]
fn case_of_ascii_letters_does_not_matter() {
    let lower = score_one("rust and async rust", &["rust", "async"]);
    let mixed = score_one("RuSt and ASYNC Rust", &["RUST", "Async"]);
    assert_eq!(lower.occurrences(), &[2, 1]);
    assert_eq!(mixed.occurrences(), lower.occurrences());
    assert_eq!(score_of(&mixed), score_of(&lower));
    assert_eq!(mixed.matched_keywords(), &["RUST".to_string(), "Async".to_string()]);
}

#[test]
fn letters_outside_ascii_keep_their_case() {
    let scored = score_one("\u{c9}t\u{e9}", &["\u{e9}t\u{e9}", "t\u{e9}"]);
    assert_eq!(scored.occurrences(), &[0, 1]);
}

#[test]
fn matched_keywords_follow_keyword_order() {
    let scored = score_one("tokio first, then async, then rust", &["rust", "async", "go", "tokio"]);
    assert_eq!(scored.occurrences(), &[1, 1, 0, 1]);
    assert_eq!(
        scored.matched_keywords(),
        &["rust".to_string(), "async".to_string(), "tokio".to_string()]
    );
}

#[test]
fn description_is_searched_after_the_title() {
    let plain = article("Weekly news");
    let described = article("Weekly news").with_description("rust".to_string());
    let kws = keywords(&["news rust", "rust"]);
    let scored = score_articles(vec![plain, described], &kws).unwrap();
    assert_eq!(scored[0].occurrences(), &[0, 0]);
    assert_eq!(scored[1].occurrences(), &[1, 0]);
}

#[test]
fn only_the_first_keywords_take_part() {
    assert_eq!(MAX_KEY_WORD_COUNT, 20);
    let words: Vec<String> = (0..25).map(|i| format!("word{:02}x", i)).collect();
    assert_eq!(considered_keywords(&words).len(), 20);
    assert_eq!(considered_keywords(&words[..3]).len(), 3);
    let scored = score_articles(vec![article("word03x word24x word19x")], &words).unwrap();
    let counts = scored[0].occurrences();
    assert_eq!(counts.len(), 20);
    assert_eq!(counts[3], 1);
    assert_eq!(counts[19], 1);
    assert_eq!(counts.iter().sum::<usize>(), 2);
    assert_eq!(scored[0].matched_keywords(), &["word03x".to_string(), "word19x".to_string()]);
}

#[test]
fn hits_are_tallied_per_keyword() {
    assert_eq!(tally(&vec![0, 2, 0, 7], 3), vec![2, 0, 1]);
    assert_eq!(tally(&Vec::new(), 2), vec![0, 0]);
    let kws = keywords(&["a", "b", "c"]);
    let (counts, matched) = relevance_from_hits(&vec![2, 2, 0], &kws);
    assert_eq!(counts, vec![1, 0, 2]);
    assert_eq!(matched, vec!["a".to_string(), "c".to_string()]);
}

#[test]
fn results_keep_the_order_of_the_articles() {
    let titles: Vec<String> = (0..200).map(|i| format!("article {} rust", i)).collect();
    let articles: Vec<Article> = titles.iter().map(|t| article(t)).collect();
    let scored = score_articles(articles, &keywords(&["rust"])).unwrap();
    assert_eq!(scored.len(), 200);
    for (i, s) in scored.iter().enumerate() {
        assert_eq!(s.article().title(), titles[i]);
        assert_eq!(s.occurrences(), &[1]);
    }
}

#[test]
fn matcher_built_from_the_keywords_serves_every_scoring_function() {
    let kws = keywords(&["rust", "async"]);
    let matcher = keyword_matcher(&kws).unwrap();

    let (counts, matched) =
        calculate_relevance(&article("Async Rust, rust and more RUST"), &matcher, &kws);
    assert_eq!(counts, vec![3, 1]);
    assert_eq!(matched, keywords(&["rust", "async"]));

    let one = score_article(article("Python tutorial"), &matcher, &kws);
    assert_eq!(one.occurrences(), &[0, 0]);
    assert!(one.matched_keywords().is_empty());

    let all = score_with_matcher(
        vec![article("async"), article("nothing"), article("rust")],
        &matcher,
        &kws,
    );
    assert_eq!(all.len(), 3);
    assert_eq!(all[0].occurrences(), &[0, 1]);
    assert_eq!(all[1].occurrences(), &[0, 0]);
    assert_eq!(all[2].occurrences(), &[1, 0]);
    assert_eq!(all[2].article().title(), "rust");
}

#[test]
fn matcher_takes_only_the_keywords_that_take_part() {
    let mut words: Vec<String> = (0..MAX_KEY_WORD_COUNT).map(|i| format!("word{i}x")).collect();
    words.push("extra".to_string());
    let matcher = keyword_matcher(&words).unwrap();
    let (counts, matched) = calculate_relevance(&article("extra word3x extra"), &matcher, &words);
    assert_eq!(counts.len(), MAX_KEY_WORD_COUNT);
    assert_eq!(counts[3], 1);
    assert_eq!(counts.iter().sum::<usize>(), 1);
    assert_eq!(matched, vec!["word3x".to_string()]);
}

#[test]
fn scored_article_is_cloned_whole() {
    let scored = score_one("Rust async rust", &["rust", "go", "async"]);
    let copy = scored.clone();
    assert_eq!(copy.article().title(), "Rust async rust");
    assert_eq!(copy.article().url(), scored.article().url());
    assert_eq!(copy.occurrences(), &[2, 0, 1]);
    assert_eq!(copy.matched_keywords(), &["rust".to_string(), "async".to_string()]);
    assert_eq!(score_of(&copy), score_of(&scored));
}
