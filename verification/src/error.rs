//! The failures the pipeline can report.

use vstd::prelude::*;
use vstd::string::*;

verus! {

/// Why a stage of the pipeline gave up.
#[derive(Debug)]
pub enum AppError {
    /// A request to `url` failed; `message` carries the cause.
    HttpError { url: String, message: String },
    /// A payload received from `origin` could not be turned into items.
    ParseError { origin: String, message: String },
    /// A request ran out of time; the text names the target.
    TimeoutError(String),
    /// A configured value is unusable.
    ConfigError(String),
    /// Cancellation was requested.
    ShutdownError,
    /// The named source produced no article at all.
    NoArticlesError(String),
    /// Scoring could not be set up.
    AnalyzerError(String),
}

/// The mathematical content of an [`AppError`].
pub enum AppErrorView {
    HttpError { url: Seq<char>, message: Seq<char> },
    ParseError { origin: Seq<char>, message: Seq<char> },
    TimeoutError(Seq<char>),
    ConfigError(Seq<char>),
    ShutdownError,
    NoArticlesError(Seq<char>),
    AnalyzerError(Seq<char>),
}

/// The line of text that presents an error to a reader.
pub open spec fn message_of(e: AppErrorView) -> Seq<char> {
    match e {
        AppErrorView::HttpError { url, message } => "HTTP request failed for "@ + url + ": "@
            + message,
        AppErrorView::ParseError { origin, message } => "Failed to parse response from "@ + origin
            + ": "@ + message,
        AppErrorView::TimeoutError(what) => "Timeout error: "@ + what,
        AppErrorView::ConfigError(what) => "Configuration error: "@ + what,
        AppErrorView::ShutdownError => "Shutdown requested"@,
        AppErrorView::NoArticlesError(source) => "No articles found from source: "@ + source,
        AppErrorView::AnalyzerError(what) => "Analyzer error: "@ + what,
    }
}

impl View for AppError {
    type V = AppErrorView;

    open spec fn view(&self) -> AppErrorView {
        match self {
            AppError::HttpError { url, message } => AppErrorView::HttpError {
                url: url@,
                message: message@,
            },
            AppError::ParseError { origin, message } => AppErrorView::ParseError {
                origin: origin@,
                message: message@,
            },
            AppError::TimeoutError(what) => AppErrorView::TimeoutError(what@),
            AppError::ConfigError(what) => AppErrorView::ConfigError(what@),
            AppError::ShutdownError => AppErrorView::ShutdownError,
            AppError::NoArticlesError(source) => AppErrorView::NoArticlesError(source@),
            AppError::AnalyzerError(what) => AppErrorView::AnalyzerError(what@),
        }
    }
}

impl Clone for AppError {
    fn clone(&self) -> (res: Self)
        ensures
            res@ == self@,
    {
        match self {
            AppError::HttpError { url, message } => AppError::HttpError {
                url: url.clone(),
                message: message.clone(),
            },
            AppError::ParseError { origin, message } => AppError::ParseError {
                origin: origin.clone(),
                message: message.clone(),
            },
            AppError::TimeoutError(what) => AppError::TimeoutError(what.clone()),
            AppError::ConfigError(what) => AppError::ConfigError(what.clone()),
            AppError::ShutdownError => AppError::ShutdownError,
            AppError::NoArticlesError(source) => AppError::NoArticlesError(source.clone()),
            AppError::AnalyzerError(what) => AppError::AnalyzerError(what.clone()),
        }
    }
}

impl AppError {
    /// A failed request to `url`, with the cause in words.
    pub fn http_error(url: &str, cause: &str) -> (res: Self)
        ensures
            res@ == (AppErrorView::HttpError { url: url@, message: cause@ }),
    {
        AppError::HttpError { url: String::from_str(url), message: String::from_str(cause) }
    }

    /// An unusable payload from `origin`, with the cause in words.
    pub fn parse_error(origin: &str, cause: &str) -> (res: Self)
        ensures
            res@ == (AppErrorView::ParseError { origin: origin@, message: cause@ }),
    {
        AppError::ParseError { origin: String::from_str(origin), message: String::from_str(cause) }
    }

    /// The line of text that presents this error to a reader.
    pub fn message(&self) -> (res: String)
        ensures
            res@ == message_of(self@),
    {
        match self {
            AppError::HttpError { url, message } => {
                let mut out = String::from_str("HTTP request failed for ");
                out.append(url.as_str());
                out.append(": ");
                out.append(message.as_str());
                out
            },
            AppError::ParseError { origin, message } => {
                let mut out = String::from_str("Failed to parse response from ");
                out.append(origin.as_str());
                out.append(": ");
                out.append(message.as_str());
                out
            },
            AppError::TimeoutError(what) => {
                let mut out = String::from_str("Timeout error: ");
                out.append(what.as_str());
                out
            },
            AppError::ConfigError(what) => {
                let mut out = String::from_str("Configuration error: ");
                out.append(what.as_str());
                out
            },
            AppError::ShutdownError => String::from_str("Shutdown requested"),
            AppError::NoArticlesError(source) => {
                let mut out = String::from_str("No articles found from source: ");
                out.append(source.as_str());
                out
            },
            AppError::AnalyzerError(what) => {
                let mut out = String::from_str("Analyzer error: ");
                out.append(what.as_str());
                out
            },
        }
    }
}

} // verus!
