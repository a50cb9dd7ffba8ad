use kamui_vrf_server::cli_integration::{CLIError, MangekyouCLI, VRFCliProof, DEFAULT_CLI_PATH};
use kamui_vrf_server::cycle::{
    classify, poll_step, prepare_fulfillment, record_outcome, Disposition, FulfillError,
    PollAction, PollState, POLL_INTERVAL_SECS,
};
use kamui_vrf_server::dedup::DedupTracker;
use kamui_vrf_server::request::{decode_request, DecodeError, RawAccount, RequestStatus};
use kamui_vrf_server::submit::{submission_step, SubmitDecision, MAX_ATTEMPTS, RETRY_DELAY_SECS};
use kamui_vrf_server::tx::{build_fulfillment, encode_fulfill_instruction, result_address, BuildError};
use solana_program::pubkey::Pubkey;

const TAG: &[u8] = b"REQUEST\0";

fn payload(requester: u8, subscription: u8, seed: &[u8], status: u8) -> Vec<u8> {
    let mut v = TAG.to_vec();
    v.extend_from_slice(&[requester; 32]);
    v.extend_from_slice(&[subscription; 32]);
    v.extend_from_slice(&(seed.len() as u32).to_le_bytes());
    v.extend_from_slice(seed);
    v.push(status);
    v
}

fn account(addr: u8, data: Vec<u8>) -> RawAccount {
    RawAccount { address: vec![addr; 32], data }
}

#[test]
fn short_payload_is_skipped() {
    assert!(matches!(decode_request(&vec![1; 32], &b"REQ".to_vec()), Ok(None)));
    assert!(matches!(decode_request(&vec![1; 32], &Vec::new()), Ok(None)));
}

#[test]
fn mismatched_tag_is_skipped() {
    let mut data = payload(2, 3, b"seed", 0);
    data[0] = b'X';
    assert!(matches!(decode_request(&vec![1; 32], &data), Ok(None)));
}

#[test]
fn well_formed_payload_decodes_each_status() {
    let cases = [
        (0u8, RequestStatus::Pending),
        (1, RequestStatus::Fulfilled),
        (2, RequestStatus::Cancelled),
        (3, RequestStatus::Expired),
    ];
    for (byte, status) in cases {
        let data = payload(2, 3, b"some seed", byte);
        let first = decode_request(&vec![7; 32], &data).unwrap().unwrap();
        let second = decode_request(&vec![7; 32], &data).unwrap().unwrap();
        assert_eq!(first.status, status);
        assert_eq!(second.status, first.status);
        assert_eq!(first.id, vec![7; 32]);
        assert_eq!(first.requester, vec![2; 32]);
        assert_eq!(first.subscription, vec![3; 32]);
        assert_eq!(first.seed, b"some seed".to_vec());
    }
}

#[test]
fn four_bytes_after_tag_is_a_decode_error() {
    let mut data = TAG.to_vec();
    data.extend_from_slice(&[1, 2, 3, 4]);
    assert_eq!(decode_request(&vec![1; 32], &data).unwrap_err(), DecodeError::Truncated);
    let mut tracker = DedupTracker::new();
    let acc = account(1, data);
    let d = classify(&acc, &tracker);
    assert!(matches!(d, Disposition::Malformed(DecodeError::Truncated)));
    let count = match d {
        Disposition::Eligible(r) => record_outcome(&mut tracker, &r, &Ok("sig".to_string()), 0),
        _ => 0,
    };
    assert_eq!(count, 0);
    assert_eq!(tracker.len(), 0);
}

#[test]
fn seed_longer_than_payload_is_truncated() {
    let mut data = payload(2, 3, b"abc", 0);
    data[8 + 64] = 200;
    assert_eq!(decode_request(&vec![1; 32], &data).unwrap_err(), DecodeError::Truncated);
}

#[test]
fn trailing_bytes_and_bad_status_are_errors() {
    let mut data = payload(2, 3, b"abc", 0);
    data.push(0);
    assert_eq!(decode_request(&vec![1; 32], &data).unwrap_err(), DecodeError::TrailingBytes);
    let data = payload(2, 3, b"abc", 9);
    assert_eq!(decode_request(&vec![1; 32], &data).unwrap_err(), DecodeError::InvalidStatus);
}

#[test]
fn dedup_tracker_marks_once() {
    let mut t = DedupTracker::new();
    assert!(!t.is_processed(&vec![1; 32]));
    t.mark_processed(&vec![1; 32]);
    t.mark_processed(&vec![1; 32]);
    t.mark_processed(&vec![2; 32]);
    assert!(t.is_processed(&vec![1; 32]));
    assert!(t.is_processed(&vec![2; 32]));
    assert!(!t.is_processed(&vec![3; 32]));
    assert_eq!(t.len(), 2);
}

#[test]
fn fulfilled_request_is_skipped_whatever_its_status() {
    let mut tracker = DedupTracker::new();
    tracker.mark_processed(&vec![5; 32]);
    for status in 0u8..4 {
        let acc = account(5, payload(2, 3, b"s", status));
        assert!(matches!(classify(&acc, &tracker), Disposition::AlreadyFulfilled));
    }
}

#[test]
fn classify_pending_and_not_pending() {
    let tracker = DedupTracker::new();
    let acc = account(5, payload(2, 3, b"s", 0));
    match classify(&acc, &tracker) {
        Disposition::Eligible(r) => assert_eq!(r.seed, b"s".to_vec()),
        other => panic!("unexpected {:?}", other),
    }
    let acc = account(5, payload(2, 3, b"s", 1));
    assert!(matches!(classify(&acc, &tracker), Disposition::NotPending(RequestStatus::Fulfilled)));
    let acc = account(5, b"OTHER\0\0\0rest".to_vec());
    assert!(matches!(classify(&acc, &tracker), Disposition::Untagged));
}

#[test]
fn failing_request_does_not_block_the_next() {
    let mut tracker = DedupTracker::new();
    let accounts = vec![
        account(1, payload(9, 9, b"a", 0)),
        account(2, payload(9, 9, b"b", 0)),
        account(3, payload(9, 9, b"c", 0)),
    ];
    let mut attempted = Vec::new();
    let mut count = 0u64;
    for (k, acc) in accounts.iter().enumerate() {
        if let Disposition::Eligible(r) = classify(acc, &tracker) {
            attempted.push(k);
            let outcome = if k == 1 {
                Err(FulfillError::ProofInvalid)
            } else {
                Ok(format!("sig{}", k))
            };
            count = record_outcome(&mut tracker, &r, &outcome, count);
        }
    }
    assert_eq!(attempted, vec![0, 1, 2]);
    assert_eq!(count, 2);
    assert!(tracker.is_processed(&vec![1; 32]));
    assert!(!tracker.is_processed(&vec![2; 32]));
    assert!(tracker.is_processed(&vec![3; 32]));
    // the failed request is attempted again in the next cycle, the others not
    let again: Vec<bool> = accounts
        .iter()
        .map(|a| matches!(classify(a, &tracker), Disposition::Eligible(_)))
        .collect();
    assert_eq!(again, vec![false, true, false]);
}

#[test]
fn submission_stops_after_three_failures() {
    let d1 = submission_step(0, Err("e1".to_string()));
    assert_eq!(
        d1,
        SubmitDecision::Retry { attempts: 1, delay_secs: RETRY_DELAY_SECS, last_error: "e1".to_string() }
    );
    let d2 = submission_step(1, Err("e2".to_string()));
    assert_eq!(
        d2,
        SubmitDecision::Retry { attempts: 2, delay_secs: 2, last_error: "e2".to_string() }
    );
    let d3 = submission_step(2, Err("e3".to_string()));
    assert_eq!(
        d3,
        SubmitDecision::SubmissionFailed { attempts: 3, last_error: "e3".to_string() }
    );
    assert_eq!(MAX_ATTEMPTS, 3);
}

#[test]
fn submission_confirmed_on_second_attempt() {
    let d = submission_step(1, Ok("sig".to_string()));
    assert_eq!(d, SubmitDecision::Confirmed { signature: "sig".to_string(), attempts: 2 });
}

#[test]
fn instruction_data_layout() {
    let data = encode_fulfill_instruction(&vec![0xaa, 0xbb], &vec![0xcc]);
    assert_eq!(data, vec![3, 2, 0, 0, 0, 0xaa, 0xbb, 1, 0, 0, 0, 0xcc]);
}

#[test]
fn result_address_matches_ledger_derivation() {
    let program = Pubkey::new_from_array([4; 32]);
    let request = Pubkey::new_from_array([6; 32]);
    let (expected, _) = Pubkey::find_program_address(&[b"vrf_result", request.as_ref()], &program);
    let got = result_address(&request.to_bytes().to_vec(), &program.to_bytes().to_vec()).unwrap();
    assert_eq!(got, expected.to_bytes().to_vec());
    assert_ne!(got, request.to_bytes().to_vec());
}

#[test]
fn fulfillment_accounts_in_program_order() {
    let rec = decode_request(&vec![6; 32], &payload(2, 3, b"seed", 0)).unwrap().unwrap();
    let program = vec![4u8; 32];
    let ix = build_fulfillment(&vec![8; 32], &program, &rec, &vec![1, 2], &vec![3]).unwrap();
    let result = result_address(&vec![6; 32], &program).unwrap();
    let view: Vec<(Vec<u8>, bool, bool)> =
        ix.accounts.iter().map(|a| (a.address.clone(), a.is_signer, a.is_writable)).collect();
    assert_eq!(
        view,
        vec![
            (vec![8; 32], true, true),
            (vec![6; 32], false, true),
            (result, false, true),
            (vec![2; 32], false, false),
            (vec![3; 32], false, true),
            (vec![0; 32], false, false),
        ]
    );
    assert_eq!(ix.program_id, program);
    assert_eq!(ix.data, vec![3, 2, 0, 0, 0, 1, 2, 1, 0, 0, 0, 3]);
    assert_eq!(
        build_fulfillment(&vec![8; 32], &vec![4; 31], &rec, &vec![1], &vec![3]).unwrap_err(),
        BuildError::InvalidProgramId
    );
}

fn artifact(proof: &str, pk: &str) -> VRFCliProof {
    VRFCliProof { proof: proof.to_string(), output: "00".to_string(), public_key: pk.to_string() }
}

#[test]
fn unverified_proof_is_never_submitted() {
    let rec = decode_request(&vec![6; 32], &payload(2, 3, b"seed", 0)).unwrap().unwrap();
    let a = artifact("0aFf", "10");
    let r = prepare_fulfillment(&vec![8; 32], &vec![4; 32], &rec, &a, Ok(false));
    assert_eq!(r.unwrap_err(), FulfillError::ProofInvalid);
    let err = CLIError::ProcessError("gone".to_string());
    let r = prepare_fulfillment(&vec![8; 32], &vec![4; 32], &rec, &a, Err(err.clone()));
    assert_eq!(r.unwrap_err(), FulfillError::VerificationError(err));
    let ix = prepare_fulfillment(&vec![8; 32], &vec![4; 32], &rec, &a, Ok(true)).unwrap();
    assert_eq!(ix.data, vec![3, 2, 0, 0, 0, 0x0a, 0xff, 1, 0, 0, 0, 0x10]);
}

#[test]
fn non_hex_proof_is_invalid_output() {
    let rec = decode_request(&vec![6; 32], &payload(2, 3, b"seed", 0)).unwrap().unwrap();
    for a in [artifact("xyz0", "10"), artifact("abc", "10"), artifact("ab", "1g")] {
        let r = prepare_fulfillment(&vec![8; 32], &vec![4; 32], &rec, &a, Ok(true));
        assert!(matches!(r, Err(FulfillError::InvalidOutput(_))));
    }
}

#[test]
fn cli_defaults_and_arguments() {
    let cli = MangekyouCLI::new(None);
    assert_eq!(cli.cli_path(), DEFAULT_CLI_PATH);
    let cli = MangekyouCLI::new(Some("/bin/prover".to_string()));
    assert_eq!(cli.cli_path(), "/bin/prover");
    assert_eq!(cli.keygen_args(), vec!["keygen".to_string()]);
    assert_eq!(
        cli.prove_args("abcd", &b"test input".to_vec()),
        vec!["prove", "--input", "7465737420696e707574", "--secret-key", "abcd"]
    );
    assert_eq!(
        cli.verify_args("p", "o", "k", &vec![0x00, 0xff]),
        vec!["verify", "--proof", "p", "--output", "o", "--public-key", "k", "--input", "00ff"]
    );
}

#[test]
fn keygen_output_is_read() {
    let cli = MangekyouCLI::new(None);
    let out = b"Secret key: 0a0b\nPublic key: 0c0d\n";
    let (s, p) = cli.read_keygen_output(true, out, String::new()).unwrap();
    assert_eq!(s, b"0a0b".to_vec());
    assert_eq!(p, b"0c0d".to_vec());
    let out = b"  Secret key: 01\r\nPublic key: 02  \n\n";
    let (s, p) = cli.read_keygen_output(true, out, String::new()).unwrap();
    assert_eq!((s, p), (b"01".to_vec(), b"02".to_vec()));
}

#[test]
fn malformed_keygen_output_is_invalid_output() {
    let cli = MangekyouCLI::new(None);
    for out in [
        &b""[..],
        b"Secret key: 01",
        b"Secret key: 01\nPublic key: 02\nextra",
        b"Secret: 01\nPublic key: 02",
        b"Secret key: 01\nPublic: 02",
    ] {
        let r = cli.read_keygen_output(true, out, String::new());
        assert!(matches!(r, Err(CLIError::InvalidOutput(_))), "{:?}", out);
    }
    let r = cli.read_keygen_output(false, b"", "boom".to_string());
    assert_eq!(r.unwrap_err(), CLIError::ProofGenerationFailed("Keygen failed: boom".to_string()));
}

#[test]
fn prove_output_is_read() {
    let cli = MangekyouCLI::new(None);
    let (p, o) = cli.read_prove_output(true, b"Proof:  aabb\nOutput: ccdd\n", String::new()).unwrap();
    assert_eq!((p, o), (b"aabb".to_vec(), b"ccdd".to_vec()));
    let r = cli.read_prove_output(true, b"Proof: aabb\nOutput: ccdd\n", String::new());
    assert!(matches!(r, Err(CLIError::InvalidOutput(_))));
}

#[test]
fn proof_carries_the_keypair_public_key() {
    let mut cli = MangekyouCLI::new(None);
    cli.remember_keypair("5ec2e7".to_string(), "9b11c".to_string());
    let (s, p) = cli.derive_public_key("5ec2e7").unwrap();
    assert_eq!((s.as_str(), p.as_str()), ("5ec2e7", "9b11c"));
    let proof = cli.proof_for_key("5ec2e7", "aa".to_string(), "bb".to_string()).unwrap();
    assert_eq!(proof.public_key, "9b11c");
    assert_eq!(proof.proof, "aa");
    assert!(matches!(cli.derive_public_key("other"), Err(CLIError::InvalidOutput(_))));
}

#[test]
fn poll_loop_stops_on_cancel() {
    assert_eq!(
        poll_step(PollState::Running, false),
        (PollState::Running, PollAction::RunCycle { then_wait_secs: POLL_INTERVAL_SECS })
    );
    assert_eq!(POLL_INTERVAL_SECS, 3);
    assert_eq!(poll_step(PollState::Running, true), (PollState::Stopped, PollAction::Exit));
    assert_eq!(poll_step(PollState::Stopped, false), (PollState::Stopped, PollAction::Exit));
}

#[test]
fn unicode_whitespace_is_trimmed() {
    let cli = MangekyouCLI::new(None);
    let out = "\u{a0}Secret key: 01\nPublic key: 02\u{3000}\u{85}\n".as_bytes();
    let (s, p) = cli.read_keygen_output(true, out, String::new()).unwrap();
    assert_eq!((s, p), (b"01".to_vec(), b"02".to_vec()));
    let out = "\u{2009}\u{1680} Proof:  ab\nOutput: cd\u{202f}\u{205f}\u{2028}".as_bytes();
    let (p, o) = cli.read_prove_output(true, out, String::new()).unwrap();
    assert_eq!((p, o), (b"ab".to_vec(), b"cd".to_vec()));
    // a character that is not White_Space stays
    let out = "\u{200b}Secret key: 01\nPublic key: 02".as_bytes();
    assert!(matches!(cli.read_keygen_output(true, out, String::new()), Err(CLIError::InvalidOutput(_))));
}

#[test]
fn failed_prove_run_names_its_error() {
    let cli = MangekyouCLI::new(None);
    let r = cli.read_prove_output(false, b"Proof:  ab\nOutput: cd", "bad key".to_string());
    assert_eq!(
        r.unwrap_err(),
        CLIError::ProofGenerationFailed("Proof generation failed: bad key".to_string())
    );
}

#[test]
fn fulfilled_count_saturates() {
    let mut tracker = DedupTracker::new();
    let rec = decode_request(&vec![6; 32], &payload(2, 3, b"seed", 0)).unwrap().unwrap();
    assert_eq!(record_outcome(&mut tracker, &rec, &Ok("sig".to_string()), u64::MAX), u64::MAX);
    assert!(tracker.is_processed(&vec![6; 32]));
}

#[test]
fn proofs_with_one_secret_share_the_first_key() {
    let mut cli = MangekyouCLI::new(None);
    cli.remember_keypair("aa".to_string(), "first".to_string());
    cli.remember_keypair("aa".to_string(), "second".to_string());
    let a = cli.proof_for_key("aa", "p".to_string(), "o".to_string()).unwrap();
    let b = cli.proof_for_key("aa", "p".to_string(), "o".to_string()).unwrap();
    assert_eq!(a.public_key, "first");
    assert_eq!(a, b);
}
