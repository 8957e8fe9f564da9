use article_aggregator::analyzer::{score_articles, ScoredArticle};
use article_aggregator::model::Article;
use article_aggregator::ranker::{rank, rank_order};

fn article(title: &str) -> Article {
    Article::new(title.to_string(), "https://example.org/a".to_string(), "test".to_string())
}

fn score_of(scored: &ScoredArticle) -> f64 {
    let mut total = 0.0;
    for &count in scored.occurrences() {
        if count > 0 {
            total += 1.0 + (count as f64).ln();
        }
    }
    total
}

#[test]
fn higher_keys_come_first_and_ties_keep_their_order() {
    let keys = vec![1u64, 3, 3, 2, 0, 3];
    assert_eq!(rank_order(&keys), vec![1, 2, 5, 3, 0, 4]);
    let items = vec!["a", "b", "c", "d", "e", "f"];
    assert_eq!(rank(items, &keys), vec!["b", "c", "f", "d", "a", "e"]);
}

#[test]
fn ranking_nothing_gives_nothing() {
    assert_eq!(rank_order(&Vec::new()), Vec::<usize>::new());
    assert_eq!(rank(Vec::<u8>::new(), &Vec::new()), Vec::<u8>::new());
}

#[test]
fn equal_keys_leave_the_order_alone() {
    let keys = vec![7u64; 5];
    assert_eq!(rank(vec![10, 11, 12, 13, 14], &keys), vec![10, 11, 12, 13, 14]);
}

#[test]
fn rising_keys_are_reversed() {
    let keys: Vec<u64> = (0..50).collect();
    let items: Vec<u64> = (0..50).collect();
    let expected: Vec<u64> = (0..50).rev().collect();
    assert_eq!(rank(items, &keys), expected);
}

#[test]
fn bit_patterns_of_scores_order_as_the_scores() {
    let scores = [0.0f64, 1.0, 1.0 + 2.0f64.ln(), 2.0, 1.0 + 3.0f64.ln(), 3.0];
    for pair in scores.windows(2) {
        assert!(pair[0] < pair[1]);
        assert!(pair[0].to_bits() < pair[1].to_bits());
    }
}

#[test]
fn matched_article_ranks_before_unmatched() {
    let kws = vec!["rust".to_string(), "async".to_string()];
    let scored = score_articles(
        vec![article("Python tutorial"), article("Rust async performance")],
        &kws,
    )
    .unwrap();
    let keys: Vec<u64> = scored.iter().map(|s| score_of(s).to_bits()).collect();
    let ranked = rank(scored, &keys);
    assert_eq!(ranked[0].article().title(), "Rust async performance");
    assert_eq!(score_of(&ranked[0]), 2.0);
    assert_eq!(ranked[1].article().title(), "Python tutorial");
    assert_eq!(score_of(&ranked[1]), 0.0);
}
