//! The error taxonomy. Every terminal failure of the engine is one of these
//! typed values; configuration-tier failures below the embedded default are
//! recovered internally and never appear here.

use vstd::prelude::*;

verus! {

/// The ghost shape of a `DockermirError`, over character sequences.
#[verifier::ext_equal]
pub enum ErrorView {
    MismatchAllRule,
    InvalidPattern { rule_name: Seq<char> },
    DefaultCorrupt,
    FetchError { source_image: Seq<char>, mirror_image: Seq<char>, error: Seq<char> },
    RelabelError { source_image: Seq<char>, mirror_image: Seq<char>, error: Seq<char> },
    CleanupError { image: Seq<char>, error: Seq<char> },
    DownloadExhausted { url: Seq<char>, error: Seq<char> },
}

#[derive(Debug, PartialEq, Eq)]
pub enum DockermirError {
    /// No rewrite rule in the document matched the source identifier.
    MismatchAllRule,
    /// A configured match pattern failed to compile; carries the name of the
    /// offending rule.
    InvalidPattern { rule_name: String },
    /// The embedded default document could not be produced: a packaging
    /// defect, not a runtime condition.
    DefaultCorrupt,
    /// The external executor failed to fetch the artifact through the mirror.
    FetchError { source_image: String, mirror_image: String, error: String },
    /// The external executor failed to relabel the fetched artifact under the
    /// source identifier.
    RelabelError { source_image: String, mirror_image: String, error: String },
    /// The external executor failed to remove the redundant mirror-labelled
    /// artifact; the relabelled artifact itself is in place.
    CleanupError { image: String, error: String },
    /// The release download failed: every mirror was tried without success,
    /// or the response could not be saved; carries the underlying cause.
    DownloadExhausted { url: String, error: String },
}

impl View for DockermirError {
    type V = ErrorView;

    open spec fn view(&self) -> ErrorView {
        match self {
            DockermirError::MismatchAllRule => ErrorView::MismatchAllRule,
            DockermirError::InvalidPattern { rule_name } => ErrorView::InvalidPattern {
                rule_name: rule_name@,
            },
            DockermirError::DefaultCorrupt => ErrorView::DefaultCorrupt,
            DockermirError::FetchError { source_image, mirror_image, error } => ErrorView::FetchError {
                source_image: source_image@,
                mirror_image: mirror_image@,
                error: error@,
            },
            DockermirError::RelabelError { source_image, mirror_image, error } => ErrorView::RelabelError {
                source_image: source_image@,
                mirror_image: mirror_image@,
                error: error@,
            },
            DockermirError::CleanupError { image, error } => ErrorView::CleanupError {
                image: image@,
                error: error@,
            },
            DockermirError::DownloadExhausted { url, error } => ErrorView::DownloadExhausted {
                url: url@,
                error: error@,
            },
        }
    }
}

} // verus!
