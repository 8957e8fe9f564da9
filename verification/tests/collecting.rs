use article_aggregator::error::AppError;
use article_aggregator::fetcher::{
    collect_articles, limit_targets, merge_sources, CancelPolicy, FanOut,
};
use article_aggregator::metrics::Metrics;
use article_aggregator::model::Article;

fn article(title: &str) -> Article {
    Article::new(title.to_string(), format!("https://example.org/{}", title), "src".to_string())
}

fn titles(articles: &[Article]) -> Vec<String> {
    articles.iter().map(|a| a.title().to_string()).collect()
}

#[test]
fn failed_target_is_left_out_and_does_not_fail_the_source() {
    let mut metrics = Metrics::new();
    let outcomes = vec![
        Ok(article("one")),
        Err(AppError::http_error("https://example.org/two", "always fails")),
        Ok(article("three")),
    ];
    let got = collect_articles("HackerNews", outcomes, &mut metrics).unwrap();
    assert_eq!(titles(&got), vec!["one", "three"]);
    assert_eq!(metrics.articles_fetched(), 2);
    assert_eq!(metrics.articles_failed(), 1);
}

#[test]
fn source_without_articles_reports_that() {
    let mut metrics = Metrics::new();
    let outcomes = vec![Err(AppError::ShutdownError), Err(AppError::TimeoutError("t".into()))];
    match collect_articles("HackerNews", outcomes, &mut metrics) {
        Err(AppError::NoArticlesError(source)) => assert_eq!(source, "HackerNews"),
        other => panic!("unexpected: {:?}", other),
    }
    assert_eq!(metrics.articles_failed(), 2);
    match collect_articles("Rust Blog", Vec::new(), &mut metrics) {
        Err(AppError::NoArticlesError(source)) => assert_eq!(source, "Rust Blog"),
        other => panic!("unexpected: {:?}", other),
    }
}

#[test]
fn targets_are_cut_to_the_limit() {
    assert_eq!(limit_targets(vec![5, 6, 7, 8], 2), vec![5, 6]);
    assert_eq!(limit_targets(vec![5, 6, 7, 8], 4), vec![5, 6, 7, 8]);
    assert_eq!(limit_targets(vec![5, 6], 10), vec![5, 6]);
    assert_eq!(limit_targets(vec![5, 6], 0), Vec::<u64>::new());
}

#[test]
fn one_failed_source_does_not_fail_the_run() {
    let five: Vec<Article> = (1..=5).map(|i| article(&format!("a{}", i))).collect();
    let results = vec![Ok(five), Err(AppError::NoArticlesError("Rust Blog".into()))];
    let got = merge_sources(results, false, CancelPolicy::KeepPartial).unwrap();
    assert_eq!(titles(&got), vec!["a1", "a2", "a3", "a4", "a5"]);
}

#[test]
fn sources_are_merged_in_their_order() {
    let results = vec![
        Ok(vec![article("a"), article("b")]),
        Err(AppError::ShutdownError),
        Ok(vec![article("c")]),
    ];
    let got = merge_sources(results, false, CancelPolicy::Discard).unwrap();
    assert_eq!(titles(&got), vec!["a", "b", "c"]);
}

#[test]
fn no_article_from_any_source_fails_the_run() {
    let results = vec![Err(AppError::ShutdownError), Ok(Vec::new())];
    match merge_sources(results, false, CancelPolicy::KeepPartial) {
        Err(AppError::NoArticlesError(source)) => assert_eq!(source, "all sources"),
        other => panic!("unexpected: {:?}", other),
    }
    match merge_sources(Vec::new(), false, CancelPolicy::KeepPartial) {
        Err(AppError::NoArticlesError(source)) => assert_eq!(source, "all sources"),
        other => panic!("unexpected: {:?}", other),
    }
}

#[test]
fn cancelled_run_follows_the_policy() {
    let kept = merge_sources(vec![Ok(vec![article("a")])], true, CancelPolicy::KeepPartial);
    assert_eq!(titles(&kept.unwrap()), vec!["a"]);
    let dropped = merge_sources(vec![Ok(vec![article("a")])], true, CancelPolicy::Discard);
    assert!(matches!(dropped, Err(AppError::ShutdownError)));
    let nothing = merge_sources(vec![Err(AppError::ShutdownError)], true, CancelPolicy::KeepPartial);
    assert!(matches!(nothing, Err(AppError::ShutdownError)));
}

#[test]
fn fan_out_never_runs_more_than_the_limit() {
    let mut fan = FanOut::new(vec![10, 11, 12, 13, 14], 2).unwrap();
    assert_eq!(fan.launch(false), Some(10));
    assert_eq!(fan.launch(false), Some(11));
    assert_eq!(fan.launch(false), None);
    assert_eq!(fan.in_flight(), 2);
    assert!(fan.complete());
    assert_eq!(fan.launch(false), Some(12));
    assert_eq!(fan.launch(false), None);
    assert!(fan.complete());
    assert!(fan.complete());
    assert!(!fan.complete());
    assert_eq!(fan.in_flight(), 0);
    assert!(!fan.is_finished(false));
    assert_eq!(fan.launch(false), Some(13));
    assert_eq!(fan.launch(false), Some(14));
    assert_eq!(fan.launch(false), None);
    assert!(fan.complete());
    assert!(!fan.is_finished(false));
    assert!(fan.complete());
    assert!(fan.is_finished(false));
}

#[test]
fn fan_out_stops_launching_when_cancelled() {
    let mut fan = FanOut::new(vec![1, 2, 3], 3).unwrap();
    assert_eq!(fan.launch(false), Some(1));
    assert_eq!(fan.launch(true), None);
    assert!(!fan.is_finished(true));
    assert!(fan.complete());
    assert!(fan.is_finished(true));
    assert!(!fan.is_finished(false));
}

#[test]
fn fan_out_without_room_is_a_configuration_error() {
    match FanOut::new(vec![1], 0) {
        Err(AppError::ConfigError(text)) => {
            assert_eq!(text, "max_concurrent_requests must be greater than 0")
        }
        other => panic!("unexpected: {:?}", other),
    }
    let empty = FanOut::new(Vec::new(), 1).unwrap();
    assert!(empty.is_finished(false));
}
