//! Submission of a signed fulfillment transaction with bounded retry.
//!
//! The caller sends the transaction and hands each attempt's outcome to
//! [`submission_step`], which decides whether the submission is confirmed,
//! is to be retried after a fixed delay, or has failed for good.
use vstd::prelude::*;

verus! {

/// Attempts made before a submission fails.
pub const MAX_ATTEMPTS: u32 = 3;

/// Seconds to wait between two attempts.
pub const RETRY_DELAY_SECS: u64 = 2;

/// What to do after an attempt.
#[derive(Debug, Clone, PartialEq, Eq)]
pub enum SubmitDecision {
    /// The ledger confirmed the transaction under this signature.
    Confirmed { signature: String, attempts: u32 },
    /// Wait `delay_secs`, then send again.
    Retry { attempts: u32, delay_secs: u64, last_error: String },
    /// All attempts failed; `last_error` is the last one's reason.
    SubmissionFailed { attempts: u32, last_error: String },
}

/// The decision after one more attempt, `attempts_before` having been made
/// already, whose outcome is a signature or an error.
pub open spec fn step_spec(attempts_before: u32, outcome: Result<String, String>) -> SubmitDecision {
    let attempts = (attempts_before + 1) as u32;
    match outcome {
        Ok(signature) => SubmitDecision::Confirmed { signature, attempts },
        Err(e) => if attempts >= MAX_ATTEMPTS {
            SubmitDecision::SubmissionFailed { attempts, last_error: e }
        } else {
            SubmitDecision::Retry { attempts, delay_secs: RETRY_DELAY_SECS, last_error: e }
        },
    }
}

/// Decides what follows an attempt.
pub fn submission_step(attempts_before: u32, outcome: Result<String, String>) -> (r:
    SubmitDecision)
    requires
        attempts_before < MAX_ATTEMPTS,
    ensures
        r == step_spec(attempts_before, outcome),
{
    let attempts = attempts_before + 1;
    match outcome {
        Ok(signature) => SubmitDecision::Confirmed { signature, attempts },
        Err(e) => if attempts >= MAX_ATTEMPTS {
            SubmitDecision::SubmissionFailed { attempts, last_error: e }
        } else {
            SubmitDecision::Retry { attempts, delay_secs: RETRY_DELAY_SECS, last_error: e }
        },
    }
}

/// The decisions taken for a run of attempt outcomes, starting after
/// `attempts_before` attempts and stopping at the first decision that is not
/// a retry or when the outcomes run out.
pub open spec fn run_spec(attempts_before: u32, outcomes: Seq<Result<String, String>>) -> Seq<
    SubmitDecision,
>
    decreases outcomes.len(),
{
    if outcomes.len() == 0 || attempts_before >= MAX_ATTEMPTS {
        Seq::empty()
    } else {
        let d = step_spec(attempts_before, outcomes[0]);
        match d {
            SubmitDecision::Retry { attempts, .. } => seq![d] + run_spec(
                attempts,
                outcomes.drop_first(),
            ),
            _ => seq![d],
        }
    }
}

/// A submission whose every attempt fails is attempted exactly three times:
/// the first two failures each lead to a retry after the fixed delay, and the
/// third ends it with `SubmissionFailed` carrying three attempts and the third
/// error.
pub proof fn failing_submission_stops_after_three(outcomes: Seq<Result<String, String>>)
    requires
        outcomes.len() >= MAX_ATTEMPTS,
        forall|i: int| 0 <= i < outcomes.len() ==> outcomes[i] is Err,
    ensures
        run_spec(0, outcomes).len() == MAX_ATTEMPTS,
        run_spec(0, outcomes)[0] == (SubmitDecision::Retry {
            attempts: 1,
            delay_secs: RETRY_DELAY_SECS,
            last_error: outcomes[0]->Err_0,
        }),
        run_spec(0, outcomes)[1] == (SubmitDecision::Retry {
            attempts: 2,
            delay_secs: RETRY_DELAY_SECS,
            last_error: outcomes[1]->Err_0,
        }),
        run_spec(0, outcomes)[2] == (SubmitDecision::SubmissionFailed {
            attempts: 3,
            last_error: outcomes[2]->Err_0,
        }),
{
    let o1 = outcomes.drop_first();
    let o2 = o1.drop_first();
    let o3 = o2.drop_first();
    assert(o1[0] == outcomes[1]);
    assert(o2[0] == outcomes[2]);
    assert(run_spec(3, o3) == Seq::<SubmitDecision>::empty());
    assert(run_spec(2, o2) =~= seq![
        SubmitDecision::SubmissionFailed { attempts: 3, last_error: outcomes[2]->Err_0 },
    ]);
    assert(run_spec(1, o1).len() == 2);
    assert(run_spec(0, outcomes).len() == 3);
}

/// A submission stops at its first confirmed attempt, which is within the
/// attempt bound.
pub proof fn confirmation_ends_submission(
    attempts_before: u32,
    outcomes: Seq<Result<String, String>>,
)
    requires
        attempts_before < MAX_ATTEMPTS,
        outcomes.len() > 0,
        outcomes[0] is Ok,
    ensures
        run_spec(attempts_before, outcomes) == seq![
            SubmitDecision::Confirmed {
                signature: outcomes[0]->Ok_0,
                attempts: (attempts_before + 1) as u32,
            },
        ],
{
    assert(run_spec(attempts_before, outcomes) =~= seq![
        step_spec(attempts_before, outcomes[0]),
    ]);
}

} // verus!
