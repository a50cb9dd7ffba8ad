//! The external VRF prover, reached through its command-line tool: the
//! tool's location and keys, the arguments of its commands, and the reading
//! of what it prints. Running the tool is left to the caller.
use vstd::prelude::*;
use vstd::string::{StringSliceAdditionalSpecFns, StringExecFns};
use crate::hex_text::{encode_hex, hex_text};

verus! {

/// Where the prover tool is looked for when no path is given.
pub const DEFAULT_CLI_PATH: &'static str = "../mangekyou-cli/target/debug/ecvrf-cli";

/// Start of the error text of a failed `keygen` run.
pub const KEYGEN_FAILED: &'static str = "Keygen failed: ";

/// Start of the error text of a failed `prove` run.
pub const PROVE_FAILED: &'static str = "Proof generation failed: ";

/// Prefix of the secret key line of `keygen`.
pub const SECRET_KEY_PREFIX: &'static str = "Secret key: ";

/// Prefix of the public key line of `keygen`.
pub const PUBLIC_KEY_PREFIX: &'static str = "Public key: ";

/// Prefix of the proof line of `prove`.
pub const PROOF_PREFIX: &'static str = "Proof:  ";

/// Prefix of the output line of `prove`.
pub const OUTPUT_PREFIX: &'static str = "Output: ";

#[derive(Debug, Clone, PartialEq, Eq)]
pub enum CLIError {
    /// The tool could not be run.
    ProcessError(String),
    /// The tool printed something other than what was expected.
    InvalidOutput(String),
    /// The tool ran and reported a failure.
    ProofGenerationFailed(String),
}

/// A proof as the tool prints it: hex text of the proof, the VRF output and
/// the public key it verifies under.
#[derive(Debug, Clone, PartialEq, Eq)]
pub struct VRFCliProof {
    pub proof: String,
    pub output: String,
    pub public_key: String,
}

/// Access to the prover tool, with the keypairs it generated in this process.
pub struct MangekyouCLI {
    cli_path: String,
    keypairs: Vec<(String, String)>,
}

/// Whether `b` is an ASCII White_Space character: tab, line feed, vertical
/// tab, form feed, carriage return or space.
pub open spec fn is_ascii_space(b: u8) -> bool {
    b == 32 || (9 <= b && b <= 13)
}

/// Whether `a b` is the UTF-8 form of a two-byte White_Space character:
/// U+0085 or U+00A0.
pub open spec fn is_space2(a: u8, b: u8) -> bool {
    a == 0xC2 && (b == 0x85 || b == 0xA0)
}

/// Whether `a b c` is the UTF-8 form of a three-byte White_Space character:
/// U+1680, U+2000 to U+200A, U+2028, U+2029, U+202F, U+205F or U+3000.
pub open spec fn is_space3(a: u8, b: u8, c: u8) -> bool {
    ||| (a == 0xE1 && b == 0x9A && c == 0x80)
    ||| (a == 0xE2 && b == 0x80 && ((0x80 <= c && c <= 0x8A) || c == 0xA8 || c == 0xA9 || c
        == 0xAF))
    ||| (a == 0xE2 && b == 0x81 && c == 0x9F)
    ||| (a == 0xE3 && b == 0x80 && c == 0x80)
}

/// The byte length of the White_Space character that starts at `i`, or 0.
pub open spec fn space_len_at(s: Seq<u8>, i: int) -> int {
    if 0 <= i < s.len() && is_ascii_space(s[i]) {
        1
    } else if 0 <= i && i + 1 < s.len() && is_space2(s[i], s[i + 1]) {
        2
    } else if 0 <= i && i + 2 < s.len() && is_space3(s[i], s[i + 1], s[i + 2]) {
        3
    } else {
        0
    }
}

/// The byte length of the White_Space character that ends at `j`, or 0.
pub open spec fn space_len_before(s: Seq<u8>, j: int) -> int {
    if 1 <= j <= s.len() && is_ascii_space(s[j - 1]) {
        1
    } else if 2 <= j <= s.len() && is_space2(s[j - 2], s[j - 1]) {
        2
    } else if 3 <= j <= s.len() && is_space3(s[j - 3], s[j - 2], s[j - 1]) {
        3
    } else {
        0
    }
}

/// Where the text of `s` from `i` on starts once leading White_Space
/// characters are dropped.
pub open spec fn skip_space(s: Seq<u8>, i: int) -> int
    decreases s.len() - i,
{
    if 0 <= i && i < s.len() && space_len_at(s, i) > 0 {
        skip_space(s, i + space_len_at(s, i))
    } else {
        i
    }
}

/// Where the text `s[..j]` ends once trailing White_Space characters are
/// dropped.
pub open spec fn back_space(s: Seq<u8>, j: int) -> int
    decreases j,
{
    if 0 < j <= s.len() && space_len_before(s, j) > 0 {
        back_space(s, j - space_len_before(s, j))
    } else {
        j
    }
}

/// The index of the first newline in `s[i..end]`, or `end`.
pub open spec fn find_newline(s: Seq<u8>, i: int, end: int) -> int
    decreases end - i,
{
    if i < end && 0 <= i < s.len() {
        if s[i] == 10 {
            i
        } else {
            find_newline(s, i + 1, end)
        }
    } else {
        end
    }
}

/// `line` without its prefix `p`, if it has it.
pub open spec fn strip_prefix(line: Seq<u8>, p: Seq<u8>) -> Option<Seq<u8>> {
    if p.len() <= line.len() && line.subrange(0, p.len() as int) == p {
        Some(line.subrange(p.len() as int, line.len() as int))
    } else {
        None
    }
}

/// The two fields of output that, once White_Space characters are trimmed
/// from both ends, is exactly two lines starting with `first_prefix` and
/// `second_prefix`; a line may end in `\r\n`.
pub open spec fn two_line_fields(s: Seq<u8>, first_prefix: Seq<u8>, second_prefix: Seq<u8>) -> Option<
    (Seq<u8>, Seq<u8>),
> {
    let a = skip_space(s, 0);
    let b = back_space(s, s.len() as int);
    let k = find_newline(s, a, b);
    if a >= b || k >= b || find_newline(s, k + 1, b) < b {
        None
    } else {
        let e1 = if k > a && s[k - 1] == 13 {
            k - 1
        } else {
            k
        };
        match (strip_prefix(s.subrange(a, e1), first_prefix), strip_prefix(s.subrange(k + 1, b), second_prefix)) {
            (Some(x), Some(y)) => Some((x, y)),
            _ => None,
        }
    }
}

proof fn skip_space_bounds(s: Seq<u8>, i: int)
    requires
        0 <= i <= s.len(),
    ensures
        i <= skip_space(s, i) <= s.len(),
    decreases s.len() - i,
{
    if i < s.len() && space_len_at(s, i) > 0 {
        skip_space_bounds(s, i + space_len_at(s, i));
    }
}

proof fn back_space_bounds(s: Seq<u8>, j: int)
    requires
        0 <= j <= s.len(),
    ensures
        0 <= back_space(s, j) <= j,
    decreases j,
{
    if 0 < j && space_len_before(s, j) > 0 {
        back_space_bounds(s, j - space_len_before(s, j));
    }
}

proof fn find_newline_bounds(s: Seq<u8>, i: int, end: int)
    requires
        0 <= i <= end <= s.len(),
    ensures
        i <= find_newline(s, i, end) <= end,
        find_newline(s, i, end) < end ==> s[find_newline(s, i, end)] == 10,
    decreases end - i,
{
    if i < end && s[i] != 10 {
        find_newline_bounds(s, i + 1, end);
    }
}

fn is_space3_exec(a: u8, b: u8, c: u8) -> (r: bool)
    ensures
        r == is_space3(a, b, c),
{
    (a == 0xE1 && b == 0x9A && c == 0x80) || (a == 0xE2 && b == 0x80 && ((0x80 <= c && c
        <= 0x8A) || c == 0xA8 || c == 0xA9 || c == 0xAF)) || (a == 0xE2 && b == 0x81 && c
        == 0x9F) || (a == 0xE3 && b == 0x80 && c == 0x80)
}

fn space_len(s: &[u8], i: usize) -> (r: usize)
    requires
        i <= s@.len(),
    ensures
        r as int == space_len_at(s@, i as int),
{
    let n = s.len();
    if i < n && (s[i] == 32 || (9 <= s[i] && s[i] <= 13)) {
        1
    } else if n - i >= 2 && s[i] == 0xC2 && (s[i + 1] == 0x85 || s[i + 1] == 0xA0) {
        2
    } else if n - i >= 3 && is_space3_exec(s[i], s[i + 1], s[i + 2]) {
        3
    } else {
        0
    }
}

fn space_len_back(s: &[u8], j: usize) -> (r: usize)
    requires
        j <= s@.len(),
    ensures
        r as int == space_len_before(s@, j as int),
{
    if 1 <= j && (s[j - 1] == 32 || (9 <= s[j - 1] && s[j - 1] <= 13)) {
        1
    } else if 2 <= j && s[j - 2] == 0xC2 && (s[j - 1] == 0x85 || s[j - 1] == 0xA0) {
        2
    } else if 3 <= j && is_space3_exec(s[j - 3], s[j - 2], s[j - 1]) {
        3
    } else {
        0
    }
}

fn first_non_space(s: &[u8]) -> (r: usize)
    ensures
        r as int == skip_space(s@, 0),
{
    let mut i: usize = 0;
    loop
        invariant
            i <= s@.len(),
            skip_space(s@, i as int) == skip_space(s@, 0),
        decreases s@.len() - i,
    {
        if i >= s.len() {
            return i;
        }
        let l = space_len(s, i);
        if l == 0 {
            return i;
        }
        i = i + l;
    }
}

fn end_non_space(s: &[u8]) -> (r: usize)
    ensures
        r as int == back_space(s@, s@.len() as int),
{
    let mut j: usize = s.len();
    loop
        invariant
            j <= s@.len(),
            back_space(s@, j as int) == back_space(s@, s@.len() as int),
        decreases j,
    {
        if j == 0 {
            return j;
        }
        let l = space_len_back(s, j);
        if l == 0 {
            return j;
        }
        j = j - l;
    }
}

fn next_newline(s: &[u8], i: usize, end: usize) -> (r: usize)
    requires
        i <= end <= s@.len(),
    ensures
        r as int == find_newline(s@, i as int, end as int),
{
    let mut k: usize = i;
    while k < end && s[k] != 10
        invariant
            i <= k <= end <= s@.len(),
            find_newline(s@, k as int, end as int) == find_newline(s@, i as int, end as int),
        decreases end - k,
    {
        k = k + 1;
    }
    k
}

fn starts_with_at(s: &[u8], start: usize, end: usize, p: &[u8]) -> (r: bool)
    requires
        start <= end <= s@.len(),
    ensures
        r == strip_prefix(s@.subrange(start as int, end as int), p@) is Some,
{
    if p.len() > end - start {
        return false;
    }
    let mut i: usize = 0;
    while i < p.len()
        invariant
            start + p@.len() <= end <= s@.len(),
            i <= p@.len(),
            forall|j: int| 0 <= j < i ==> s@[start + j] == p@[j],
        decreases p@.len() - i,
    {
        if s[start + i] != p[i] {
            proof {
                assert(s@.subrange(start as int, end as int).subrange(0, p@.len() as int)[i as int]
                    != p@[i as int]);
            }
            return false;
        }
        i = i + 1;
    }
    proof {
        assert(s@.subrange(start as int, end as int).subrange(0, p@.len() as int) =~= p@);
    }
    true
}

fn slice_copy(s: &[u8], start: usize, end: usize) -> (r: Vec<u8>)
    requires
        start <= end <= s@.len(),
    ensures
        r@ == s@.subrange(start as int, end as int),
{
    let mut r: Vec<u8> = Vec::new();
    let mut i: usize = start;
    while i < end
        invariant
            start <= i <= end <= s@.len(),
            r@ == s@.subrange(start as int, i as int),
        decreases end - i,
    {
        r.push(s[i]);
        proof {
            assert(s@.subrange(start as int, i + 1) =~= s@.subrange(start as int, i as int).push(
                s@[i as int],
            ));
        }
        i = i + 1;
    }
    r
}

/// Reads output made of exactly two lines, the first starting with `first_prefix` and
/// the second with `second_prefix`, and returns what follows each prefix.
pub fn parse_two_line_output(stdout: &[u8], first_prefix: &[u8], second_prefix: &[u8]) -> (r: Result<
    (Vec<u8>, Vec<u8>),
    CLIError,
>)
    ensures
        match two_line_fields(stdout@, first_prefix@, second_prefix@) {
            Some((x, y)) => r is Ok && r->Ok_0.0@ == x && r->Ok_0.1@ == y,
            None => r is Err && r->Err_0 is InvalidOutput,
        },
{
    let s = stdout;
    let a = first_non_space(s);
    let b = end_non_space(s);
    proof {
        skip_space_bounds(s@, 0);
        back_space_bounds(s@, s@.len() as int);
    }
    if a >= b {
        return Err(CLIError::InvalidOutput("expected 2 lines, got none".to_owned()));
    }
    let k = next_newline(s, a, b);
    proof {
        find_newline_bounds(s@, a as int, b as int);
    }
    if k >= b {
        return Err(CLIError::InvalidOutput("expected 2 lines, got 1".to_owned()));
    }
    let k2 = next_newline(s, k + 1, b);
    if k2 < b {
        return Err(CLIError::InvalidOutput("expected 2 lines, got more".to_owned()));
    }
    let e1 = if k > a && s[k - 1] == 13 {
        k - 1
    } else {
        k
    };
    if !starts_with_at(s, a, e1, first_prefix) {
        return Err(CLIError::InvalidOutput("missing prefix on the first line".to_owned()));
    }
    if !starts_with_at(s, k + 1, b, second_prefix) {
        return Err(CLIError::InvalidOutput("missing prefix on the second line".to_owned()));
    }
    let x = slice_copy(s, a + first_prefix.len(), e1);
    let y = slice_copy(s, k + 1 + second_prefix.len(), b);
    proof {
        assert(x@ =~= s@.subrange(a as int, e1 as int).subrange(
            first_prefix@.len() as int,
            (e1 - a) as int,
        ));
        assert(y@ =~= s@.subrange(k + 1, b as int).subrange(
            second_prefix@.len() as int,
            (b - k - 1) as int,
        ));
    }
    Ok((x, y))
}

/// The arguments of a command, as text.
pub open spec fn args_view(args: Seq<String>) -> Seq<Seq<char>> {
    args.map_values(|a: String| a@)
}

/// Output of `keygen` or `prove`, read: a failed run gives `failure`
/// followed by its error text, a successful one the two fields of what it
/// printed.
pub open spec fn run_result(
    success: bool,
    stdout: Seq<u8>,
    stderr: Seq<char>,
    failure: Seq<char>,
    first_prefix: Seq<u8>,
    second_prefix: Seq<u8>,
    r: Result<(Vec<u8>, Vec<u8>), CLIError>,
) -> bool {
    if !success {
        r is Err && r->Err_0 is ProofGenerationFailed && r->Err_0->ProofGenerationFailed_0@
            == failure + stderr
    } else {
        match two_line_fields(stdout, first_prefix, second_prefix) {
            Some((x, y)) => r is Ok && r->Ok_0.0@ == x && r->Ok_0.1@ == y,
            None => r is Err && r->Err_0 is InvalidOutput,
        }
    }
}

/// Whether `public` is the public key of the first keypair in `keys` whose
/// secret key is `secret`.
pub open spec fn first_key_for(
    keys: Seq<(Seq<char>, Seq<char>)>,
    secret: Seq<char>,
    public: Seq<char>,
) -> bool {
    exists|i: int|
        0 <= i < keys.len() && keys[i] == (secret, public) && forall|j: int|
            0 <= j < i ==> (#[trigger] keys[j]).0 != secret
}

/// A secret key has at most one first keypair, so every proof made with it
/// carries the same public key.
pub proof fn first_key_is_unique(
    keys: Seq<(Seq<char>, Seq<char>)>,
    secret: Seq<char>,
    a: Seq<char>,
    b: Seq<char>,
)
    requires
        first_key_for(keys, secret, a),
        first_key_for(keys, secret, b),
    ensures
        a == b,
{
    let i = choose|i: int|
        0 <= i < keys.len() && keys[i] == (secret, a) && forall|j: int|
            0 <= j < i ==> (#[trigger] keys[j]).0 != secret;
    let k = choose|k: int|
        0 <= k < keys.len() && keys[k] == (secret, b) && forall|j: int|
            0 <= j < k ==> (#[trigger] keys[j]).0 != secret;
    if i < k {
        assert(keys[i].0 != secret);
    } else if k < i {
        assert(keys[k].0 != secret);
    }
}

impl MangekyouCLI {
    /// The path of the tool.
    pub closed spec fn path(&self) -> Seq<char> {
        self.cli_path@
    }

    /// The keypairs generated so far, as (secret, public) hex text.
    pub closed spec fn keys(&self) -> Seq<(Seq<char>, Seq<char>)> {
        self.keypairs@.map_values(|k: (String, String)| (k.0@, k.1@))
    }

    /// A client for the tool at `cli_path`, or at the default path.
    pub fn new(cli_path: Option<String>) -> (r: Self)
        ensures
            r.path() == match cli_path {
                Some(p) => p@,
                None => DEFAULT_CLI_PATH@,
            },
            r.keys() == Seq::<(Seq<char>, Seq<char>)>::empty(),
    {
        let path = match cli_path {
            Some(p) => p,
            None => DEFAULT_CLI_PATH.to_owned(),
        };
        let r = MangekyouCLI { cli_path: path, keypairs: Vec::new() };
        proof {
            assert(r.keys() =~= Seq::<(Seq<char>, Seq<char>)>::empty());
        }
        r
    }

    /// The path of the tool.
    pub fn cli_path(&self) -> (r: &String)
        ensures
            r@ == self.path(),
    {
        &self.cli_path
    }

    /// Records a keypair that the tool generated.
    pub fn remember_keypair(&mut self, secret_key: String, public_key: String)
        ensures
            final(self).path() == old(self).path(),
            final(self).keys() == old(self).keys().push((secret_key@, public_key@)),
    {
        let ghost s = secret_key@;
        let ghost p = public_key@;
        self.keypairs.push((secret_key, public_key));
        proof {
            assert(self.keys() =~= old(self).keys().push((s, p)));
        }
    }

    /// The keypair whose secret key is `secret_key`, among those the tool
    /// generated; the first one recorded where several share it.
    pub fn derive_public_key(&self, secret_key: &str) -> (r: Result<(String, String), CLIError>)
        ensures
            match r {
                Ok((s, p)) => s@ == secret_key@ && first_key_for(self.keys(), secret_key@, p@),
                Err(e) => e is InvalidOutput && forall|j: int|
                    0 <= j < self.keys().len() ==> (#[trigger] self.keys()[j]).0 != secret_key@,
            },
    {
        let wanted = secret_key.to_owned();
        let mut i: usize = 0;
        while i < self.keypairs.len()
            invariant
                i <= self.keypairs@.len(),
                wanted@ == secret_key@,
                forall|j: int| 0 <= j < i ==> (#[trigger] self.keys()[j]).0 != secret_key@,
            decreases self.keypairs@.len() - i,
        {
            if self.keypairs[i].0 == wanted {
                proof {
                    assert(self.keys()[i as int] == (self.keypairs@[i as int].0@,
                        self.keypairs@[i as int].1@));
                }
                return Ok((self.keypairs[i].0.clone(), self.keypairs[i].1.clone()));
            }
            i = i + 1;
        }
        Err(CLIError::InvalidOutput("secret key was not generated by this client".to_owned()))
    }

    /// The arguments of the tool's `keygen` command.
    pub fn keygen_args(&self) -> (r: Vec<String>)
        ensures
            args_view(r@) == seq!["keygen"@],
    {
        let r = vec!["keygen".to_owned()];
        proof {
            assert(args_view(r@) =~= seq!["keygen"@]);
        }
        r
    }

    /// The arguments of the tool's `prove` command for `input` under
    /// `secret_key`; the input is passed as lowercase hex.
    pub fn prove_args(&self, secret_key: &str, input: &Vec<u8>) -> (r: Vec<String>)
        ensures
            args_view(r@) == seq![
                "prove"@,
                "--input"@,
                hex_text(input@),
                "--secret-key"@,
                secret_key@,
            ],
    {
        let r = vec![
            "prove".to_owned(),
            "--input".to_owned(),
            encode_hex(input),
            "--secret-key".to_owned(),
            secret_key.to_owned(),
        ];
        proof {
            assert(args_view(r@) =~= seq![
                "prove"@,
                "--input"@,
                hex_text(input@),
                "--secret-key"@,
                secret_key@,
            ]);
        }
        r
    }

    /// The arguments of the tool's `verify` command for a proof of `input`.
    pub fn verify_args(&self, proof: &str, output: &str, public_key: &str, input: &Vec<u8>) -> (r:
        Vec<String>)
        ensures
            args_view(r@) == seq![
                "verify"@,
                "--proof"@,
                proof@,
                "--output"@,
                output@,
                "--public-key"@,
                public_key@,
                "--input"@,
                hex_text(input@),
            ],
    {
        let r = vec![
            "verify".to_owned(),
            "--proof".to_owned(),
            proof.to_owned(),
            "--output".to_owned(),
            output.to_owned(),
            "--public-key".to_owned(),
            public_key.to_owned(),
            "--input".to_owned(),
            encode_hex(input),
        ];
        proof {
            assert(args_view(r@) =~= seq![
                "verify"@,
                "--proof"@,
                proof@,
                "--output"@,
                output@,
                "--public-key"@,
                public_key@,
                "--input"@,
                hex_text(input@),
            ]);
        }
        r
    }

    /// Reads a run of `keygen`: its exit status, what it printed, and its
    /// error text. Gives the secret and the public key as printed.
    pub fn read_keygen_output(&self, success: bool, stdout: &[u8], stderr: String) -> (r: Result<
        (Vec<u8>, Vec<u8>),
        CLIError,
    >)
        ensures
            run_result(
                success,
                stdout@,
                stderr@,
                KEYGEN_FAILED@,
                SECRET_KEY_PREFIX.spec_bytes(),
                PUBLIC_KEY_PREFIX.spec_bytes(),
                r,
            ),
    {
        if !success {
            return Err(CLIError::ProofGenerationFailed(KEYGEN_FAILED.to_owned().concat(stderr.as_str())));
        }
        parse_two_line_output(stdout, SECRET_KEY_PREFIX.as_bytes(), PUBLIC_KEY_PREFIX.as_bytes())
    }

    /// Reads a run of `prove`: its exit status, what it printed, and its
    /// error text. Gives the proof and the VRF output as printed.
    pub fn read_prove_output(&self, success: bool, stdout: &[u8], stderr: String) -> (r: Result<
        (Vec<u8>, Vec<u8>),
        CLIError,
    >)
        ensures
            run_result(
                success,
                stdout@,
                stderr@,
                PROVE_FAILED@,
                PROOF_PREFIX.spec_bytes(),
                OUTPUT_PREFIX.spec_bytes(),
                r,
            ),
    {
        if !success {
            return Err(CLIError::ProofGenerationFailed(PROVE_FAILED.to_owned().concat(stderr.as_str())));
        }
        parse_two_line_output(stdout, PROOF_PREFIX.as_bytes(), OUTPUT_PREFIX.as_bytes())
    }

    /// The proof artifact for a proof and output that the tool printed for
    /// `secret_key`: its public key is the one generated with that secret.
    pub fn proof_for_key(&self, secret_key: &str, proof: String, output: String) -> (r: Result<
        VRFCliProof,
        CLIError,
    >)
        ensures
            match r {
                Ok(a) => a.proof@ == proof@ && a.output@ == output@ && first_key_for(
                    self.keys(),
                    secret_key@,
                    a.public_key@,
                ),
                Err(e) => e is InvalidOutput && forall|j: int|
                    0 <= j < self.keys().len() ==> (#[trigger] self.keys()[j]).0 != secret_key@,
            },
    {
        match self.derive_public_key(secret_key) {
            Ok((_, public_key)) => Ok(VRFCliProof { proof, output, public_key }),
            Err(e) => Err(e),
        }
    }
}

} // verus!
