//! Keeps pull-request bodies on a code host in sync with the tickets that
//! their branch names refer to.
//!
//! The decision logic — which open pull requests are eligible and which
//! ticket a branch name points at — lives here and is verified. The
//! surrounding program (HTTP clients for the code host and the ticket
//! tracker, the HTML-to-Markdown conversion, and the polling loop) drives
//! these decisions from the outside.

mod github;
mod kanbanize;
mod logic;

pub use github::{Issue, PullConvertError, PullRequest};
pub use kanbanize::{Card, CardConvertError};
pub use logic::{
    extract_card_id,
    extracted_identifier,
    IdExtraction,
    IssueStep,
    PullStep,
    Service,
};
