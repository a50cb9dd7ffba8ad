//! The fulfillment instruction: the derived result account, the instruction
//! data, and the ordered account list that the ledger program expects.
use vstd::prelude::*;
use crate::bytes::{le_bytes_u32, push_le_u32, extend_from_range, copy_range};
use crate::request::{RequestRecord, ADDRESS_LEN};
use solana_program::pubkey::Pubkey;

verus! {

/// Index of the fulfill-randomness variant in the program's instruction enum.
pub const FULFILL_RANDOMNESS_INDEX: u8 = 3;

/// The seed tag under which a request's result account is derived.
pub open spec fn result_seed() -> Seq<u8> {
    seq![118u8, 114u8, 102u8, 95u8, 114u8, 101u8, 115u8, 117u8, 108u8, 116u8]
}

/// The address of the system program: 32 zero bytes.
pub open spec fn system_program_address() -> Seq<u8> {
    Seq::new(32, |i: int| 0u8)
}

/// The program-derived address for `seeds` under `program`, as the ledger's
/// addressing scheme defines it, or `None` where no bump seed gives one.
pub uninterp spec fn program_address_of(seeds: Seq<Seq<u8>>, program: Seq<u8>) -> Option<
    Seq<u8>,
>;

/// Relies on `Pubkey::try_find_program_address` of solana-pubkey: the
/// derived address depends on the seeds and the program id alone, is 32 bytes
/// long, and is absent only where no bump seed gives an address off the curve
/// or a seed is too long.
#[verifier::external_body]
fn find_program_address(seeds: &Vec<Vec<u8>>, program_id: &Vec<u8>) -> (r: Option<Vec<u8>>)
    requires
        program_id@.len() == 32,
    ensures
        match r {
            Some(a) => program_address_of(seeds@.map_values(|s: Vec<u8>| s@), program_id@)
                == Some(a@) && a@.len() == 32,
            None => program_address_of(seeds@.map_values(|s: Vec<u8>| s@), program_id@) is None,
        },
{
    let program = Pubkey::try_from(program_id.as_slice()).ok()?;
    let refs: Vec<&[u8]> = seeds.iter().map(|s| s.as_slice()).collect();
    Pubkey::try_find_program_address(&refs, &program).map(|(a, _)| a.to_bytes().to_vec())
}

/// The seeds of the result account of the request at `request_id`.
pub open spec fn result_seeds(request_id: Seq<u8>) -> Seq<Seq<u8>> {
    seq![result_seed(), request_id]
}

/// Derives the address of the result account of the request at `request_id`.
pub fn result_address(request_id: &Vec<u8>, program_id: &Vec<u8>) -> (r: Option<Vec<u8>>)
    requires
        program_id@.len() == 32,
    ensures
        match r {
            Some(a) => program_address_of(result_seeds(request_id@), program_id@) == Some(a@)
                && a@.len() == 32,
            None => program_address_of(result_seeds(request_id@), program_id@) is None,
        },
{
    let tag: Vec<u8> = vec![118u8, 114u8, 102u8, 95u8, 114u8, 101u8, 115u8, 117u8, 108u8, 116u8];
    let id = copy_range(request_id, 0, request_id.len());
    let seeds: Vec<Vec<u8>> = vec![tag, id];
    proof {
        assert(tag@ =~= result_seed());
        assert(id@ =~= request_id@);
        assert(seeds@.map_values(|s: Vec<u8>| s@) =~= result_seeds(request_id@));
    }
    find_program_address(&seeds, program_id)
}

/// The instruction data: the variant index, then the proof and the public
/// key, each as a little-endian u32 length followed by its bytes.
pub open spec fn fulfill_instruction_data(proof: Seq<u8>, public_key: Seq<u8>) -> Seq<u8> {
    seq![FULFILL_RANDOMNESS_INDEX] + le_bytes_u32(proof.len() as u32) + proof + le_bytes_u32(
        public_key.len() as u32,
    ) + public_key
}

/// Encodes the fulfill-randomness instruction data.
pub fn encode_fulfill_instruction(proof: &Vec<u8>, public_key: &Vec<u8>) -> (r: Vec<u8>)
    requires
        proof@.len() <= u32::MAX,
        public_key@.len() <= u32::MAX,
    ensures
        r@ == fulfill_instruction_data(proof@, public_key@),
{
    let mut r: Vec<u8> = Vec::new();
    r.push(FULFILL_RANDOMNESS_INDEX);
    push_le_u32(&mut r, proof.len() as u32);
    extend_from_range(&mut r, proof, 0, proof.len());
    push_le_u32(&mut r, public_key.len() as u32);
    extend_from_range(&mut r, public_key, 0, public_key.len());
    proof {
        assert(proof@.subrange(0, proof@.len() as int) =~= proof@);
        assert(public_key@.subrange(0, public_key@.len() as int) =~= public_key@);
        assert(r@ =~= fulfill_instruction_data(proof@, public_key@));
    }
    r
}

/// A reference to an account in an instruction.
#[derive(Debug, Clone)]
pub struct AccountRef {
    pub address: Vec<u8>,
    pub is_signer: bool,
    pub is_writable: bool,
}

/// An instruction for the ledger program.
#[derive(Debug, Clone)]
pub struct FulfillmentInstruction {
    pub program_id: Vec<u8>,
    pub accounts: Vec<AccountRef>,
    pub data: Vec<u8>,
}

/// An account reference as `(address, is_signer, is_writable)`.
pub open spec fn account_view(a: AccountRef) -> (Seq<u8>, bool, bool) {
    (a.address@, a.is_signer, a.is_writable)
}

/// The accounts of the fulfillment of `request`, in the order the program
/// reads them: the oracle signer, the request, the result account, the
/// requester, the subscription and the system program.
pub open spec fn fulfillment_accounts(
    oracle: Seq<u8>,
    request: RequestRecord,
    result: Seq<u8>,
) -> Seq<(Seq<u8>, bool, bool)> {
    seq![
        (oracle, true, true),
        (request.id@, false, true),
        (result, false, true),
        (request.requester@, false, false),
        (request.subscription@, false, true),
        (system_program_address(), false, false),
    ]
}

/// Why no fulfillment instruction could be built.
#[derive(Debug, Clone, Copy, PartialEq, Eq, Structural)]
pub enum BuildError {
    /// The program id is not 32 bytes long.
    InvalidProgramId,
    /// The proof or the public key is too long to encode.
    FieldTooLong,
    /// No result account address could be derived.
    NoResultAddress,
}

/// Whether `ix` is the fulfillment instruction for `request` with this proof
/// and public key, signed by `oracle`, whose result account is `result`.
pub open spec fn is_fulfillment(
    ix: FulfillmentInstruction,
    oracle: Seq<u8>,
    program_id: Seq<u8>,
    request: RequestRecord,
    result: Seq<u8>,
    proof: Seq<u8>,
    public_key: Seq<u8>,
) -> bool {
    &&& ix.program_id@ == program_id
    &&& ix.data@ == fulfill_instruction_data(proof, public_key)
    &&& ix.accounts@.map_values(|a: AccountRef| account_view(a)) == fulfillment_accounts(
        oracle,
        request,
        result,
    )
}

/// Builds the instruction that fulfills `request` with `proof` under
/// `public_key`, signed by `oracle`.
pub fn build_fulfillment(
    oracle: &Vec<u8>,
    program_id: &Vec<u8>,
    request: &RequestRecord,
    proof: &Vec<u8>,
    public_key: &Vec<u8>,
) -> (r: Result<FulfillmentInstruction, BuildError>)
    ensures
        program_id@.len() != 32 ==> r == Err::<FulfillmentInstruction, BuildError>(
            BuildError::InvalidProgramId,
        ),
        program_id@.len() == 32 && (proof@.len() > u32::MAX || public_key@.len() > u32::MAX)
            ==> r == Err::<FulfillmentInstruction, BuildError>(BuildError::FieldTooLong),
        program_id@.len() == 32 && proof@.len() <= u32::MAX && public_key@.len() <= u32::MAX
            ==> match program_address_of(result_seeds(request.id@), program_id@) {
            None => r == Err::<FulfillmentInstruction, BuildError>(BuildError::NoResultAddress),
            Some(result) => r is Ok && is_fulfillment(
                r->Ok_0,
                oracle@,
                program_id@,
                *request,
                result,
                proof@,
                public_key@,
            ),
        },
{
    if program_id.len() != 32 {
        return Err(BuildError::InvalidProgramId);
    }
    if proof.len() > u32::MAX as usize || public_key.len() > u32::MAX as usize {
        return Err(BuildError::FieldTooLong);
    }
    let result = match result_address(&request.id, program_id) {
        Some(a) => a,
        None => {
            return Err(BuildError::NoResultAddress);
        },
    };
    let data = encode_fulfill_instruction(proof, public_key);
    let system: Vec<u8> = vec![0u8; ADDRESS_LEN];
    let accounts: Vec<AccountRef> = vec![
        AccountRef { address: copy_range(oracle, 0, oracle.len()), is_signer: true, is_writable: true },
        AccountRef { address: copy_range(&request.id, 0, request.id.len()), is_signer: false, is_writable: true },
        AccountRef { address: result, is_signer: false, is_writable: true },
        AccountRef { address: copy_range(&request.requester, 0, request.requester.len()), is_signer: false, is_writable: false },
        AccountRef { address: copy_range(&request.subscription, 0, request.subscription.len()), is_signer: false, is_writable: true },
        AccountRef { address: system, is_signer: false, is_writable: false },
    ];
    let ix = FulfillmentInstruction {
        program_id: copy_range(program_id, 0, program_id.len()),
        accounts,
        data,
    };
    proof {
        assert(oracle@.subrange(0, oracle@.len() as int) =~= oracle@);
        assert(request.id@.subrange(0, request.id@.len() as int) =~= request.id@);
        assert(request.requester@.subrange(0, request.requester@.len() as int) =~= request.requester@);
        assert(request.subscription@.subrange(0, request.subscription@.len() as int)
            =~= request.subscription@);
        assert(program_id@.subrange(0, program_id@.len() as int) =~= program_id@);
        assert(system@ =~= system_program_address());
        assert(ix.accounts@.map_values(|a: AccountRef| account_view(a)) =~= fulfillment_accounts(
            oracle@,
            *request,
            result@,
        ));
    }
    Ok(ix)
}

} // verus!
