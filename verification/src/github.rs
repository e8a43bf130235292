//! Data model for the code-hosting side: candidate issues from the listing
//! call and the pull-request details resolved behind them.
//!
//! Locators (URLs) are carried as plain strings; the surrounding program
//! parses and validates them where its HTTP client requires it.

use vstd::prelude::*;

verus! {

/// An open item returned by the listing call. `pull_request_url` is absent
/// when the issue is not a pull request.
#[derive(Debug, Clone)]
pub struct Issue {
    pub url: String,
    pub body: String,
    pub pull_request_url: Option<String>,
}

/// The resolved pull request behind a candidate issue, freshly fetched each
/// cycle.
#[derive(Debug, Clone)]
pub struct PullRequest {
    pub url: String,
    pub is_private: bool,
    pub repository_owner: String,
    pub head_reference: String,
}

/// Why a pull-request detail response could not be turned into a
/// [`PullRequest`].
#[derive(Debug, Clone, PartialEq, Eq, Structural)]
pub enum PullConvertError {
    /// The response carried no repository for the pull request's base.
    RepositoryNotFound,
    /// The repository carried no owner login.
    OwnerNotFound,
}

impl PullConvertError {
    /// A human-readable description, for the surrounding program's logs.
    pub fn message(&self) -> (r: String)
        ensures
            r@ == (match self {
                PullConvertError::RepositoryNotFound => "repository of pull request not found"@,
                PullConvertError::OwnerNotFound => "owner not found"@,
            }),
    {
        match self {
            PullConvertError::RepositoryNotFound => "repository of pull request not found".to_owned(),
            PullConvertError::OwnerNotFound => "owner not found".to_owned(),
        }
    }
}

impl Issue {
    /// Builds an [`Issue`] from the fields the listing response carries: a
    /// missing body is read as the empty body.
    pub fn from_parts(url: String, body: Option<String>, pull_request_url: Option<String>) -> (r: Issue)
        ensures
            r.url@ == url@,
            r.body@ == (match body {
                Option::Some(b) => b@,
                Option::None => Seq::<char>::empty(),
            }),
            r.pull_request_url == pull_request_url,
    {
        Issue {
            url,
            body: match body {
                Option::Some(b) => b,
                Option::None => String::new(),
            },
            pull_request_url,
        }
    }
}

impl PullRequest {
    /// Builds a [`PullRequest`] from the fields a detail response carries.
    ///
    /// A response without a repository, or without an owner login, is
    /// rejected; a repository whose visibility is not reported is taken to be
    /// private.
    pub fn from_parts(
        url: String,
        head_reference: String,
        repository_found: bool,
        private: Option<bool>,
        owner: Option<String>,
    ) -> (r: Result<PullRequest, PullConvertError>)
        ensures
            !repository_found ==> r == Result::<PullRequest, PullConvertError>::Err(
                PullConvertError::RepositoryNotFound,
            ),
            repository_found && owner is None ==> r == Result::<PullRequest, PullConvertError>::Err(
                PullConvertError::OwnerNotFound,
            ),
            repository_found && owner is Some ==> r is Ok && {
                let p = r->Ok_0;
                &&& p.url@ == url@
                &&& p.head_reference@ == head_reference@
                &&& p.is_private == (match private {
                    Option::Some(v) => v,
                    Option::None => true,
                })
                &&& p.repository_owner@ == owner->0@
            },
    {
        if !repository_found {
            return Result::Err(PullConvertError::RepositoryNotFound);
        }
        match owner {
            Option::None => Result::Err(PullConvertError::OwnerNotFound),
            Option::Some(login) => Result::Ok(PullRequest {
                url,
                is_private: match private {
                    Option::Some(v) => v,
                    Option::None => true,
                },
                repository_owner: login,
                head_reference,
            }),
        }
    }
}

} // verus!
