use vstd::prelude::*;

use crate::identity::Identity;
use crate::text::{contains, contains_substring};

verus! {

broadcast use vstd::string::group_string_axioms;

/// The terminal result of a submitted call, as the ledger reported it.
#[derive(Clone, Debug, PartialEq, Eq)]
pub enum ExecutionOutcome {
    Success,
    Failure { description: String },
}

/// Why an assertion on an outcome did not hold.
#[derive(Clone, Debug, PartialEq, Eq)]
pub enum AssertionError {
    /// Success was expected; the call failed with this description.
    ExpectedSuccess { description: String },
    /// A failure was expected; the call succeeded.
    UnexpectedSuccess,
    /// A failure was expected whose description holds `expected`; it did not.
    MissingSubstring { expected: String, actual: String },
}

/// What `assert_success` returns for `o`.
pub open spec fn success_verdict(o: ExecutionOutcome) -> Result<(), AssertionError> {
    match o {
        ExecutionOutcome::Success => Ok(()),
        ExecutionOutcome::Failure { description } => Err(
            AssertionError::ExpectedSuccess { description },
        ),
    }
}

/// `r` is what `assert_failure_with` owes for `o` and the expected text `m`.
pub open spec fn is_failure_verdict(
    o: ExecutionOutcome,
    m: Seq<char>,
    r: Result<(), AssertionError>,
) -> bool {
    match o {
        ExecutionOutcome::Success => r == Err::<(), AssertionError>(
            AssertionError::UnexpectedSuccess,
        ),
        ExecutionOutcome::Failure { description } => if contains(description@, m) {
            r == Ok::<(), AssertionError>(())
        } else {
            r matches Err(AssertionError::MissingSubstring { expected, actual }) && expected@ == m
                && actual == description
        },
    }
}

/// Expects `o` to be a success; a failure comes back with its description verbatim.
pub fn assert_success(o: &ExecutionOutcome) -> (r: Result<(), AssertionError>)
    ensures
        r == success_verdict(*o),
{
    match o {
        ExecutionOutcome::Success => Ok(()),
        ExecutionOutcome::Failure { description } => Err(
            AssertionError::ExpectedSuccess { description: description.clone() },
        ),
    }
}

/// Expects `o` to be a failure whose description contains `must_contain`.
pub fn assert_failure_with(o: &ExecutionOutcome, must_contain: &str) -> (r: Result<
    (),
    AssertionError,
>)
    ensures
        is_failure_verdict(*o, must_contain@, r),
{
    match o {
        ExecutionOutcome::Success => Err(AssertionError::UnexpectedSuccess),
        ExecutionOutcome::Failure { description } => {
            if contains_substring(description.as_str(), must_contain) {
                Ok(())
            } else {
                Err(
                    AssertionError::MissingSubstring {
                        expected: must_contain.to_owned(),
                        actual: description.clone(),
                    },
                )
            }
        },
    }
}

/// The text of the ledger's rejection of a transfer to `account` when the
/// token contract holds no balance row for it.
pub open spec fn not_registered_text(account: Seq<char>) -> Seq<char> {
    "The account "@ + account + " is not registered"@
}

/// The rejection text to expect when transferring to an unregistered `account`.
pub fn not_registered_message(account: &Identity) -> (r: String)
    ensures
        r@ == not_registered_text(account@),
{
    let mut m = "The account ".to_owned();
    m.append(account.as_str());
    m.append(" is not registered");
    m
}

/// The report of a failed assertion, in words.
pub open spec fn assertion_text(e: AssertionError) -> Seq<char> {
    match e {
        AssertionError::ExpectedSuccess { description } =>
            "Transaction was expected to succeed but failed with:\n"@ + description@,
        AssertionError::UnexpectedSuccess => "Transaction should have failed"@,
        AssertionError::MissingSubstring { expected, actual } => "The expected message\n'"@
            + expected@ + "'\nis not contained in error\n'"@ + actual@ + "'"@,
    }
}

impl AssertionError {
    /// The full report; a failure description stands in it verbatim.
    pub fn message(&self) -> (r: String)
        ensures
            r@ == assertion_text(*self),
    {
        match self {
            AssertionError::ExpectedSuccess { description } => {
                let mut m = "Transaction was expected to succeed but failed with:\n".to_owned();
                m.append(description.as_str());
                m
            },
            AssertionError::UnexpectedSuccess => "Transaction should have failed".to_owned(),
            AssertionError::MissingSubstring { expected, actual } => {
                let mut m = "The expected message\n'".to_owned();
                m.append(expected.as_str());
                m.append("'\nis not contained in error\n'");
                m.append(actual.as_str());
                m.append("'");
                m
            },
        }
    }
}

/// An expected success applied to a failed outcome fails, and its report ends
/// with the outcome's whole description, verbatim.
pub proof fn lemma_failed_outcome_report_keeps_description(description: String)
    ensures
        success_verdict(ExecutionOutcome::Failure { description }) is Err,
        ({
            let t = assertion_text(
                success_verdict(ExecutionOutcome::Failure { description })->Err_0,
            );
            &&& t.len() >= description@.len()
            &&& t.subrange(t.len() - description@.len(), t.len() as int) == description@
        }),
{
    let t = assertion_text(success_verdict(ExecutionOutcome::Failure { description })->Err_0);
    let head = "Transaction was expected to succeed but failed with:\n"@;
    assert(t == head + description@);
    assert(t.subrange(head.len() as int, t.len() as int) =~= description@);
}

} // verus!
