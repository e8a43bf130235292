//! The reconciliation engine's decision logic.
//!
//! One reconciliation pass walks the open pull requests of a tracked author.
//! For each issue the engine decides, step by step, whether a ticket-derived
//! body update is owed; the surrounding program performs the network calls
//! between the steps and feeds their results back in.

use vstd::prelude::*;
use crate::github::{Issue, PullRequest};

verus! {

/// Whether `c` is one of the decimal digits `'0'` to `'9'`.
pub open spec fn is_ascii_digit(c: char) -> bool {
    48 <= c as int <= 57
}

/// The numeric value of a decimal digit character.
pub open spec fn digit_val(c: char) -> int {
    c as int - 48
}

/// The integer that a run of decimal digits denotes, most significant digit
/// first.
pub open spec fn digits_value(s: Seq<char>) -> int
    decreases s.len(),
{
    if s.len() == 0 {
        0
    } else {
        digits_value(s.drop_last()) * 10 + digit_val(s.last())
    }
}

/// The index of the first digit of `s` at or after `i`, or `s.len()` if
/// there is none.
pub open spec fn first_digit_index(s: Seq<char>, i: int) -> int
    decreases s.len() - i,
{
    if i < 0 || i >= s.len() {
        s.len() as int
    } else if is_ascii_digit(s[i]) {
        i
    } else {
        first_digit_index(s, i + 1)
    }
}

/// The end (exclusive) of the digit run of `s` that starts at `i`.
pub open spec fn digit_run_end(s: Seq<char>, i: int) -> int
    decreases s.len() - i,
{
    if i < 0 || i >= s.len() {
        i
    } else if is_ascii_digit(s[i]) {
        digit_run_end(s, i + 1)
    } else {
        i
    }
}

/// The ticket identifier encoded in a branch name: the value of the first
/// maximal digit run, or nothing when the name holds no digit. Whatever
/// follows the run — in particular a version-like `.digits` suffix — is
/// ignored.
pub open spec fn extracted_identifier(s: Seq<char>) -> Option<int> {
    let start = first_digit_index(s, 0);
    if start == s.len() {
        Option::<int>::None
    } else {
        Option::Some(digits_value(s.subrange(start, digit_run_end(s, start))))
    }
}

/// Appending one digit multiplies the run's value by ten and adds that
/// digit.
proof fn lemma_digits_value_push(p: Seq<char>, c: char)
    ensures
        digits_value(p.push(c)) == digits_value(p) * 10 + digit_val(c),
{
    assert(p.push(c).drop_last() =~= p);
    assert(p.push(c).last() == c);
}

/// A run of digits denotes a non-negative integer.
proof fn lemma_digits_value_nonneg(p: Seq<char>)
    requires
        forall|k: int| 0 <= k < p.len() ==> is_ascii_digit(p[k]),
    ensures
        digits_value(p) >= 0,
    decreases p.len(),
{
    if p.len() > 0 {
        assert(forall|k: int| 0 <= k < p.drop_last().len() ==> is_ascii_digit(p.drop_last()[k]));
        lemma_digits_value_nonneg(p.drop_last());
    }
}

/// What identifier extraction found in a branch name.
#[derive(Debug, Clone, Copy, PartialEq, Eq, Structural)]
pub enum IdExtraction {
    /// The branch name holds no digit; no update is attempted.
    NoIdentifier,
    /// The leading digit run, as a ticket identifier.
    Found(i32),
    /// The leading digit run denotes a value beyond the identifier range;
    /// an internal-consistency failure for this issue.
    TooLarge,
}

/// Whether `c` is a decimal digit.
fn char_is_digit(c: char) -> (r: bool)
    ensures
        r == is_ascii_digit(c),
{
    let u: u32 = c as u32;
    48 <= u && u <= 57
}

/// Scans a branch name for its embedded ticket identifier: the first maximal
/// digit run, read as a decimal number. A run whose value does not fit the
/// identifier range is reported as too large.
pub fn extract_card_id(branch: &str) -> (r: IdExtraction)
    ensures
        (match extracted_identifier(branch@) {
            Option::None => r == IdExtraction::NoIdentifier,
            Option::Some(v) => if v <= i32::MAX as int {
                r == IdExtraction::Found(v as i32)
            } else {
                r == IdExtraction::TooLarge
            },
        }),
{
    let ghost s = branch@;
    let n: usize = branch.unicode_len();
    let mut i: usize = 0;
    while i < n && !char_is_digit(branch.get_char(i))
        invariant
            0 <= i <= n,
            n == s.len(),
            s == branch@,
            first_digit_index(s, 0) == first_digit_index(s, i as int),
        decreases n - i,
    {
        assert(first_digit_index(s, i as int) == first_digit_index(s, i + 1 as int));
        i = i + 1;
    }
    if i == n {
        assert(first_digit_index(s, 0) == s.len());
        return IdExtraction::NoIdentifier;
    }
    assert(first_digit_index(s, 0) == i);
    let start: usize = i;
    let mut j: usize = start;
    let mut acc: u64 = 0;
    while j < n && char_is_digit(branch.get_char(j))
        invariant
            start <= j <= n,
            n == s.len(),
            s == branch@,
            digit_run_end(s, start as int) == digit_run_end(s, j as int),
            forall|k: int| start <= k < j ==> is_ascii_digit(s[k]),
            ({
                let v = digits_value(s.subrange(start as int, j as int));
                (v <= 0x7fffffff && acc == v) || (v > 0x7fffffff && acc > 0x7fffffff)
            }),
            acc <= 21474836479,
        decreases n - j,
    {
        let c = branch.get_char(j);
        let d: u64 = (c as u32 - 48) as u64;
        proof {
            assert(digit_run_end(s, j as int) == digit_run_end(s, j + 1 as int));
            let pref = s.subrange(start as int, j as int);
            assert(s.subrange(start as int, j + 1 as int) =~= pref.push(s[j as int]));
            lemma_digits_value_push(pref, s[j as int]);
            lemma_digits_value_nonneg(pref);
        }
        if acc <= 0x7fffffff {
            acc = acc * 10 + d;
        }
        j = j + 1;
    }
    assert(digit_run_end(s, j as int) == j);
    assert(digit_run_end(s, start as int) == j);
    proof {
        lemma_digits_value_nonneg(s.subrange(start as int, j as int));
    }
    if acc <= 0x7fffffff {
        IdExtraction::Found(acc as i32)
    } else {
        IdExtraction::TooLarge
    }
}

/// The reconciliation engine's configuration: the one repository-owner login
/// whose pull requests may be updated.
pub struct Service {
    pub owner_whitelist: String,
}

/// The engine's decision on a candidate issue, before any detail fetch.
#[derive(Debug, Clone, PartialEq, Eq)]
pub enum IssueStep {
    /// The issue is not a pull request; it is ignored entirely.
    NotPullRequest,
    /// The issue already has a body; this pipeline never overwrites one.
    BodyPresent,
    /// The pull request's detail must be fetched at this locator.
    FetchPull(String),
}

/// The engine's decision on a fetched pull-request detail.
#[derive(Debug, Clone, Copy, PartialEq, Eq, Structural)]
pub enum PullStep {
    /// The repository is public; out of scope by policy.
    PublicRepository,
    /// The repository's owner is not the allow-listed one.
    OwnerNotAllowed,
    /// The branch name holds no ticket identifier; a legitimate case.
    NoIdentifier,
    /// The branch's digit run is beyond the identifier range; a per-issue
    /// failure.
    IdentifierTooLarge,
    /// The ticket with this identifier must be fetched.
    FetchCard(i32),
}

impl Service {
    pub fn new(owner_whitelist: String) -> (r: Service)
        ensures
            r.owner_whitelist == owner_whitelist,
    {
        Service { owner_whitelist }
    }

    /// Decides whether a candidate issue calls for a detail fetch.
    ///
    /// An issue without a pull-request locator, or one that already has a
    /// body, asks for no network call and no update.
    pub fn evaluate(&self, issue: &Issue) -> (r: IssueStep)
        ensures
            (match issue.pull_request_url {
                Option::None => r == IssueStep::NotPullRequest,
                Option::Some(pu) => if issue.body@.len() > 0 {
                    r == IssueStep::BodyPresent
                } else {
                    r matches IssueStep::FetchPull(u) && u@ == pu@
                },
            }),
    {
        match &issue.pull_request_url {
            Option::None => IssueStep::NotPullRequest,
            Option::Some(pu) => {
                if issue.body.as_str().is_empty() {
                    IssueStep::FetchPull(pu.clone())
                } else {
                    IssueStep::BodyPresent
                }
            },
        }
    }

    /// Decides whether a fetched pull-request detail calls for a ticket
    /// fetch, and for which ticket.
    ///
    /// A public repository, or one whose owner is not the allow-listed
    /// login, asks for no ticket fetch and no update, whatever the branch
    /// name says.
    pub fn evaluate_pull(&self, pull: &PullRequest) -> (r: PullStep)
        ensures
            !pull.is_private ==> r == PullStep::PublicRepository,
            pull.is_private && pull.repository_owner@ != self.owner_whitelist@ ==> r
                == PullStep::OwnerNotAllowed,
            pull.is_private && pull.repository_owner@ == self.owner_whitelist@ ==> r == (
            match extracted_identifier(pull.head_reference@) {
                Option::None => PullStep::NoIdentifier,
                Option::Some(v) => if v <= i32::MAX as int {
                    PullStep::FetchCard(v as i32)
                } else {
                    PullStep::IdentifierTooLarge
                },
            }),
    {
        if !pull.is_private {
            return PullStep::PublicRepository;
        }
        if pull.repository_owner != self.owner_whitelist {
            return PullStep::OwnerNotAllowed;
        }
        match extract_card_id(pull.head_reference.as_str()) {
            IdExtraction::NoIdentifier => PullStep::NoIdentifier,
            IdExtraction::Found(id) => PullStep::FetchCard(id),
            IdExtraction::TooLarge => PullStep::IdentifierTooLarge,
        }
    }
}

} // verus!
