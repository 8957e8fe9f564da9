use std::time::Duration;
use article_aggregator::config::{
    AnalyzerConfig, Config, FetcherConfig, HttpConfig, KeywordsConfig, RateLimitConfig,
};
use article_aggregator::error::AppError;
use article_aggregator::metrics::Metrics;
use article_aggregator::model::Article;
use article_aggregator::rate_limiter::{admission_for, Admission, RateLimiter};
use article_aggregator::text::{
    append_decimal, decimal_string, has_prefix, is_space_char, trim,
};

fn good_config() -> Config {
    Config {
        http: HttpConfig {
            timeout_secs: 10,
            pool_max_idle_per_host: 4,
            retry_attempts: 3,
            retry_delay_ms: 250,
        },
        fetcher: FetcherConfig { max_concurrent_requests: 8, hacker_news_limit: 30 },
        rate_limit: RateLimitConfig { requests_per_second: 5 },
        analyzer: AnalyzerConfig { rayon_threads: 2 },
        keywords: KeywordsConfig { values: vec!["rust".to_string()] },
    }
}

fn complaint(config: &Config) -> String {
    match config.validate() {
        Err(AppError::ConfigError(text)) => text,
        other => panic!("unexpected: {:?}", other),
    }
}

#[test]
fn numbers_are_written_in_decimal() {
    assert_eq!(decimal_string(0), "0");
    assert_eq!(decimal_string(7), "7");
    assert_eq!(decimal_string(10), "10");
    assert_eq!(decimal_string(1234567890), "1234567890");
    assert_eq!(decimal_string(u64::MAX), "18446744073709551615");
    let mut out = String::from("n=");
    append_decimal(&mut out, 405);
    assert_eq!(out, "n=405");
}

#[test]
fn prefixes_are_compared_by_character() {
    assert!(has_prefix("https://x", "http"));
    assert!(has_prefix("http", "http"));
    assert!(has_prefix("anything", ""));
    assert!(!has_prefix("htt", "http"));
    assert!(!has_prefix("Http://x", "http"));
    assert!(!has_prefix("", "http"));
    assert!(has_prefix("\u{e9}t\u{e9}", "\u{e9}t"));
}

#[test]
fn white_space_is_trimmed_at_both_ends() {
    assert_eq!(trim("  a b  "), "a b");
    assert_eq!(trim("a"), "a");
    assert_eq!(trim(""), "");
    assert_eq!(trim(" \t\r\n"), "");
    assert_eq!(trim("\u{2003}\u{e9}t\u{e9}\u{a0}"), "\u{e9}t\u{e9}");
    assert_eq!(trim("\u{200b}x"), "\u{200b}x");
    for c in ['\u{9}', '\u{d}', ' ', '\u{85}', '\u{1680}', '\u{2000}', '\u{200a}', '\u{3000}'] {
        assert!(is_space_char(c));
    }
    for c in ['a', '\u{8}', '\u{e}', '\u{200b}', '\u{180e}', '\u{feff}'] {
        assert!(!is_space_char(c));
    }
    for code in 0u32..0x3100 {
        if let Some(c) = char::from_u32(code) {
            assert_eq!(is_space_char(c), c.is_whitespace());
        }
    }
}

#[test]
fn errors_are_presented_in_words() {
    assert_eq!(
        AppError::http_error("https://x", "refused").message(),
        "HTTP request failed for https://x: refused"
    );
    assert_eq!(
        AppError::parse_error("HackerNews item", "bad").message(),
        "Failed to parse response from HackerNews item: bad"
    );
    assert_eq!(AppError::TimeoutError("https://x".into()).message(), "Timeout error: https://x");
    assert_eq!(AppError::ConfigError("c".into()).message(), "Configuration error: c");
    assert_eq!(AppError::ShutdownError.message(), "Shutdown requested");
    assert_eq!(
        AppError::NoArticlesError("all sources".into()).message(),
        "No articles found from source: all sources"
    );
    assert_eq!(AppError::AnalyzerError("a".into()).message(), "Analyzer error: a");
    let copy = AppError::http_error("u", "m").clone();
    assert!(matches!(copy, AppError::HttpError { ref url, ref message } if url == "u" && message == "m"));
}

#[test]
fn valid_configuration_is_accepted() {
    let config = good_config();
    assert!(config.validate().is_ok());
    assert_eq!(config.timeout(), Duration::from_secs(10));
    assert_eq!(config.retry_delay(), Duration::from_millis(250));
    let loaded = Config::load(good_config()).unwrap();
    assert_eq!(loaded.keywords.values, vec!["rust".to_string()]);
    assert_eq!(loaded.fetcher.hacker_news_limit, 30);
}

#[test]
fn first_broken_rule_is_reported() {
    let mut c = good_config();
    c.keywords.values.clear();
    assert_eq!(complaint(&c), "keywords list cannot be empty");
    c.analyzer.rayon_threads = 0;
    assert_eq!(complaint(&c), "rayon_threads must be greater than 0");
    c.fetcher.max_concurrent_requests = 0;
    assert_eq!(complaint(&c), "max_concurrent_requests must be greater than 0");
    c.rate_limit.requests_per_second = 0;
    assert_eq!(complaint(&c), "requests_per_second must be greater than 0");
    c.http.retry_attempts = 0;
    assert_eq!(complaint(&c), "retry_attempts must be greater than 0");
    c.http.timeout_secs = 0;
    assert_eq!(complaint(&c), "timeout_secs must be greater than 0");
    assert!(matches!(Config::load(c), Err(AppError::ConfigError(_))));
}

#[test]
fn counters_count() {
    let mut m = Metrics::new();
    assert_eq!(m.log_summary(),
        "Metrics summary: articles_fetched=0 articles_failed=0 http_requests=0 http_failures=0");
    m.record_article_fetched();
    m.record_article_fetched();
    m.record_article_failed();
    for _ in 0..12 {
        m.record_http_request();
    }
    m.record_http_failure();
    assert_eq!(m.articles_fetched(), 2);
    assert_eq!(m.articles_failed(), 1);
    assert_eq!(m.http_requests(), 12);
    assert_eq!(m.http_failures(), 1);
    assert_eq!(m.log_summary(),
        "Metrics summary: articles_fetched=2 articles_failed=1 http_requests=12 http_failures=1");
    assert_eq!(Metrics::default().http_requests(), 0);
}

#[test]
fn article_is_built_step_by_step() {
    let a = Article::new("T".into(), "https://u".into(), "S".into());
    assert_eq!((a.title(), a.url(), a.source(), a.description()), ("T", "https://u", "S", None));
    assert_eq!(a.searchable_text(), "T");
    let b = a.clone().with_description("first".into()).with_description("D d".into());
    assert_eq!(b.description(), Some("D d"));
    assert_eq!(b.searchable_text(), "T D d");
    assert_eq!(a.description(), None);
    let empty = Article::new("".into(), "".into(), "".into()).with_description("".into());
    assert_eq!(empty.searchable_text(), " ");
}

#[test]
fn limiter_needs_a_rate() {
    match RateLimiter::new(0) {
        Err(AppError::ConfigError(text)) => {
            assert_eq!(text, "requests_per_second must be greater than 0")
        }
        Ok(_) => panic!("a limiter without a rate was made"),
        Err(other) => panic!("unexpected: {:?}", other),
    }
}

#[test]
fn limiter_grants_no_more_than_its_burst_at_once() {
    let limiter = RateLimiter::new(3).unwrap();
    let mut granted = 0;
    let mut waits = Vec::new();
    for _ in 0..6 {
        match limiter.acquire() {
            Admission::Granted => granted += 1,
            Admission::Wait { nanos } => waits.push(nanos),
        }
    }
    assert!(granted >= 1 && granted <= 4);
    assert!(!waits.is_empty());
    assert!(waits.iter().all(|&n| n <= 1_000_000_000));
}

#[test]
fn no_wait_is_a_grant_and_a_wait_is_handed_on() {
    assert!(matches!(admission_for(None), Admission::Granted));
    assert!(matches!(admission_for(Some(0)), Admission::Wait { nanos: 0 }));
    assert!(matches!(admission_for(Some(1_500_000)), Admission::Wait { nanos: 1_500_000 }));
    assert!(matches!(admission_for(Some(u64::MAX)), Admission::Wait { nanos: u64::MAX }));
}

#[test]
fn durations_are_exact_to_the_nanosecond() {
    let mut config = good_config();
    config.http.timeout_secs = 3;
    config.http.retry_delay_ms = 1;
    assert_eq!(config.timeout().as_nanos(), 3_000_000_000);
    assert_eq!(config.retry_delay().as_nanos(), 1_000_000);
}
