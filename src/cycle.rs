//! One scan cycle and the poll loop around it.
//!
//! A cycle walks the accounts that a ledger scan returned, in order. Each is
//! classified by [`classify`]; an eligible request is proved, verified,
//! built into a transaction and submitted by the caller, whose outcome
//! [`record_outcome`] books. One request's failure never stops the cycle.
use vstd::prelude::*;
use crate::request::{
    RawAccount, RequestRecord, RequestStatus, DecodeError, decode_request, has_request_tag,
    body_of, body_error, decodes_to, seed_len_of, status_of_byte, SEED_AT,
};
use crate::dedup::DedupTracker;
use crate::cli_integration::{CLIError, VRFCliProof};
use crate::hex_text::{decode_hex, is_hex, hex_bytes};
use crate::tx::{
    BuildError, FulfillmentInstruction, build_fulfillment, program_address_of, result_seeds,
    is_fulfillment,
};

verus! {

/// Seconds between two scan cycles.
pub const POLL_INTERVAL_SECS: u64 = 3;

/// Why a request was not fulfilled in this cycle. It stays pending, so a
/// later cycle tries it again.
#[derive(Debug, Clone, PartialEq, Eq)]
pub enum FulfillError {
    /// The prover failed to produce a proof.
    ProofGenerationFailed(CLIError),
    /// The prover could not be asked to verify the proof.
    VerificationError(CLIError),
    /// The prover rejected its own proof.
    ProofInvalid,
    /// A field of the proof is not hex text.
    InvalidOutput(String),
    /// No transaction could be built.
    Build(BuildError),
    /// The ledger could not be reached.
    TransportError(String),
    /// Every submission attempt failed.
    SubmissionFailed { attempts: u32, last_error: String },
}

/// What the cycle does with one scanned account.
#[derive(Debug, Clone)]
pub enum Disposition {
    /// The payload is not a request record.
    Untagged,
    /// The payload is a request record that cannot be read.
    Malformed(DecodeError),
    /// The request was fulfilled earlier in this process.
    AlreadyFulfilled,
    /// The request is no longer pending.
    NotPending(RequestStatus),
    /// The request is to be fulfilled.
    Eligible(RequestRecord),
}

/// The status stored in a well-formed body.
pub open spec fn stored_status(body: Seq<u8>) -> RequestStatus {
    status_of_byte(body[SEED_AT + seed_len_of(body)])->Some_0
}

/// Whether the account is a readable, pending request not yet fulfilled.
pub open spec fn is_eligible(address: Seq<u8>, data: Seq<u8>, processed: Set<Seq<u8>>) -> bool {
    &&& has_request_tag(data)
    &&& body_error(body_of(data)) is None
    &&& !processed.contains(address)
    &&& stored_status(body_of(data)) == RequestStatus::Pending
}

/// Decides what to do with a scanned account: decode it, then skip it if it
/// was fulfilled already or is not pending.
pub fn classify(account: &RawAccount, tracker: &DedupTracker) -> (d: Disposition)
    ensures
        !has_request_tag(account.data@) ==> d is Untagged,
        has_request_tag(account.data@) && body_error(body_of(account.data@)) is Some ==> d
            == Disposition::Malformed(body_error(body_of(account.data@))->Some_0),
        has_request_tag(account.data@) && body_error(body_of(account.data@)) is None
            && tracker@.contains(account.address@) ==> d is AlreadyFulfilled,
        has_request_tag(account.data@) && body_error(body_of(account.data@)) is None
            && !tracker@.contains(account.address@) && stored_status(body_of(account.data@))
            != RequestStatus::Pending ==> d == Disposition::NotPending(
            stored_status(body_of(account.data@)),
        ),
        (d is Eligible) == is_eligible(account.address@, account.data@, tracker@),
        d is Eligible ==> decodes_to(account.address@, body_of(account.data@), d->Eligible_0),
{
    match decode_request(&account.address, &account.data) {
        Ok(None) => Disposition::Untagged,
        Err(e) => Disposition::Malformed(e),
        Ok(Some(record)) => {
            if tracker.is_processed(&account.address) {
                Disposition::AlreadyFulfilled
            } else {
                match record.status {
                    RequestStatus::Pending => Disposition::Eligible(record),
                    other => Disposition::NotPending(other),
                }
            }
        },
    }
}

/// Turns a proof that the prover made into the fulfillment instruction,
/// given what the prover answered when asked to verify it. Only a proof the
/// prover accepted gets an instruction.
pub fn prepare_fulfillment(
    oracle: &Vec<u8>,
    program_id: &Vec<u8>,
    request: &RequestRecord,
    artifact: &VRFCliProof,
    verified: Result<bool, CLIError>,
) -> (r: Result<FulfillmentInstruction, FulfillError>)
    ensures
        r is Ok ==> verified == Ok::<bool, CLIError>(true),
        verified is Err ==> r == Err::<FulfillmentInstruction, FulfillError>(
            FulfillError::VerificationError(verified->Err_0),
        ),
        verified == Ok::<bool, CLIError>(false) ==> r == Err::<
            FulfillmentInstruction,
            FulfillError,
        >(FulfillError::ProofInvalid),
        verified == Ok::<bool, CLIError>(true) ==> {
            if !is_hex(artifact.proof@) || !is_hex(artifact.public_key@) {
                r is Err && r->Err_0 is InvalidOutput
            } else {
                let proof = hex_bytes(artifact.proof@);
                let public_key = hex_bytes(artifact.public_key@);
                if program_id@.len() != 32 {
                    r == Err::<FulfillmentInstruction, FulfillError>(
                        FulfillError::Build(BuildError::InvalidProgramId),
                    )
                } else if proof.len() > u32::MAX || public_key.len() > u32::MAX {
                    r == Err::<FulfillmentInstruction, FulfillError>(
                        FulfillError::Build(BuildError::FieldTooLong),
                    )
                } else {
                    match program_address_of(result_seeds(request.id@), program_id@) {
                        None => r == Err::<FulfillmentInstruction, FulfillError>(
                            FulfillError::Build(BuildError::NoResultAddress),
                        ),
                        Some(result) => r is Ok && is_fulfillment(
                            r->Ok_0,
                            oracle@,
                            program_id@,
                            *request,
                            result,
                            proof,
                            public_key,
                        ),
                    }
                }
            }
        },
{
    match verified {
        Err(e) => {
            return Err(FulfillError::VerificationError(e));
        },
        Ok(false) => {
            return Err(FulfillError::ProofInvalid);
        },
        Ok(true) => {},
    }
    let proof = match decode_hex(&artifact.proof) {
        Some(b) => b,
        None => {
            return Err(FulfillError::InvalidOutput("proof is not hex text".to_owned()));
        },
    };
    let public_key = match decode_hex(&artifact.public_key) {
        Some(b) => b,
        None => {
            return Err(FulfillError::InvalidOutput("public key is not hex text".to_owned()));
        },
    };
    match build_fulfillment(oracle, program_id, request, &proof, &public_key) {
        Ok(ix) => Ok(ix),
        Err(e) => Err(FulfillError::Build(e)),
    }
}

/// Books the outcome of fulfilling `request`: a confirmed fulfillment (its
/// transaction signature) marks the request and counts it, the count
/// saturating at `u64::MAX`; a failure leaves
/// both as they were, so the request is tried again next cycle.
pub fn record_outcome(
    tracker: &mut DedupTracker,
    request: &RequestRecord,
    outcome: &Result<String, FulfillError>,
    fulfilled: u64,
) -> (r: u64)
    requires
        old(tracker).wf(),
    ensures
        final(tracker).wf(),
        outcome is Ok ==> final(tracker)@ == old(tracker)@.insert(request.id@) && r == (
        if fulfilled < u64::MAX {
            fulfilled + 1
        } else {
            fulfilled as int
        }),
        outcome is Err ==> final(tracker)@ == old(tracker)@ && r == fulfilled,
{
    match outcome {
        Ok(_) => {
            tracker.mark_processed(&request.id);
            if fulfilled < u64::MAX {
                fulfilled + 1
            } else {
                fulfilled
            }
        },
        Err(_) => fulfilled,
    }
}

/// Which accounts of a cycle are attempted, given the set fulfilled before
/// it and whether each attempt is confirmed: an account is attempted when it
/// is eligible against the set as the earlier accounts of the cycle left it.
pub open spec fn cycle_attempts(
    accounts: Seq<RawAccount>,
    processed: Set<Seq<u8>>,
    confirmed: Seq<bool>,
) -> Seq<bool>
    decreases accounts.len(),
{
    if accounts.len() == 0 {
        Seq::empty()
    } else {
        let a = accounts[0];
        let attempted = is_eligible(a.address@, a.data@, processed);
        let next = if attempted && confirmed.len() > 0 && confirmed[0] {
            processed.insert(a.address@)
        } else {
            processed
        };
        seq![attempted] + cycle_attempts(accounts.drop_first(), next, confirmed.drop_first())
    }
}

proof fn cycle_attempts_len(
    accounts: Seq<RawAccount>,
    processed: Set<Seq<u8>>,
    confirmed: Seq<bool>,
)
    ensures
        cycle_attempts(accounts, processed, confirmed).len() == accounts.len(),
    decreases accounts.len(),
{
    if accounts.len() > 0 {
        let a = accounts[0];
        let attempted = is_eligible(a.address@, a.data@, processed);
        let next = if attempted && confirmed.len() > 0 && confirmed[0] {
            processed.insert(a.address@)
        } else {
            processed
        };
        cycle_attempts_len(accounts.drop_first(), next, confirmed.drop_first());
    }
}

/// A request already marked as fulfilled is not attempted again in a cycle,
/// whatever its status on the ledger and whatever the other outcomes: the
/// prover and the submitter are never called for it.
pub proof fn fulfilled_request_is_not_attempted(
    accounts: Seq<RawAccount>,
    processed: Set<Seq<u8>>,
    confirmed: Seq<bool>,
    i: int,
)
    requires
        0 <= i < accounts.len(),
        processed.contains(accounts[i].address@),
    ensures
        !cycle_attempts(accounts, processed, confirmed)[i],
    decreases accounts.len(),
{
    let a = accounts[0];
    let attempted = is_eligible(a.address@, a.data@, processed);
    let next = if attempted && confirmed.len() > 0 && confirmed[0] {
        processed.insert(a.address@)
    } else {
        processed
    };
    cycle_attempts_len(accounts.drop_first(), next, confirmed.drop_first());
    if i > 0 {
        assert(accounts.drop_first()[i - 1] == accounts[i]);
        fulfilled_request_is_not_attempted(accounts.drop_first(), next, confirmed.drop_first(), i - 1);
    }
}

/// Among requests with distinct addresses, whether request `j` is attempted
/// depends on that request and the set fulfilled before the cycle alone: a
/// failure, or a success, of any other request at any stage changes nothing
/// for it, so the requests after a failing one are still attempted.
pub proof fn attempts_are_independent(
    accounts: Seq<RawAccount>,
    processed: Set<Seq<u8>>,
    confirmed: Seq<bool>,
    j: int,
)
    requires
        0 <= j < accounts.len(),
        forall|a: int, b: int|
            0 <= a < b < accounts.len() ==> accounts[a].address@ != accounts[b].address@,
    ensures
        cycle_attempts(accounts, processed, confirmed)[j] == is_eligible(
            accounts[j].address@,
            accounts[j].data@,
            processed,
        ),
    decreases accounts.len(),
{
    let a = accounts[0];
    let attempted = is_eligible(a.address@, a.data@, processed);
    let next = if attempted && confirmed.len() > 0 && confirmed[0] {
        processed.insert(a.address@)
    } else {
        processed
    };
    let rest = accounts.drop_first();
    cycle_attempts_len(rest, next, confirmed.drop_first());
    if j > 0 {
        assert(rest[j - 1] == accounts[j]);
        assert forall|x: int, y: int| 0 <= x < y < rest.len() implies rest[x].address@
            != rest[y].address@ by {
            assert(rest[x] == accounts[x + 1]);
            assert(rest[y] == accounts[y + 1]);
        }
        attempts_are_independent(rest, next, confirmed.drop_first(), j - 1);
        assert(accounts[j].address@ != a.address@);
        assert(next.contains(accounts[j].address@) == processed.contains(accounts[j].address@));
    }
}

/// The state of the poll loop.
#[derive(Debug, Clone, Copy, PartialEq, Eq, Structural)]
pub enum PollState {
    Running,
    Stopped,
}

/// What the poll loop does next.
#[derive(Debug, Clone, Copy, PartialEq, Eq, Structural)]
pub enum PollAction {
    /// Run one scan cycle, then wait this many seconds.
    RunCycle { then_wait_secs: u64 },
    /// Leave the loop and report the final statistics.
    Exit,
}

/// The poll loop's step, taken between cycles: a cancellation seen there
/// stops the loop for good; otherwise another cycle runs.
pub fn poll_step(state: PollState, cancelled: bool) -> (r: (PollState, PollAction))
    ensures
        state == PollState::Stopped || cancelled ==> r == (PollState::Stopped, PollAction::Exit),
        state == PollState::Running && !cancelled ==> r == (
            PollState::Running,
            PollAction::RunCycle { then_wait_secs: POLL_INTERVAL_SECS },
        ),
{
    match state {
        PollState::Stopped => (PollState::Stopped, PollAction::Exit),
        PollState::Running => if cancelled {
            (PollState::Stopped, PollAction::Exit)
        } else {
            (PollState::Running, PollAction::RunCycle { then_wait_secs: POLL_INTERVAL_SECS })
        },
    }
}

} // verus!
