use vstd::prelude::*;
use vstd::utf8::*;
use crate::error::CredentialError;
use crate::hex::{encode_hex_upper, hex_upper, is_upper_hex, lemma_hex_upper_shape};
use crate::salt_manager::salt_component_from_db;
use crate::model::{NewUser, Salt};

verus! {

/// Length in bytes of a derived credential (a SHA-256 output).
pub const CREDENTIAL_LEN: usize = 32;

/// Iteration count of the key derivation.
pub const PBKDF2_ITERATIONS: u32 = 100_000;

/// A conservative bound on the byte length of the salt and of the secret,
/// below the digest's own limit of about 2^61 bytes.
pub const MAX_DIGEST_INPUT: u64 = 0x1000_0000_0000_0000;

/// A raw derived credential.
pub type Credential = [u8; CREDENTIAL_LEN];

/// The key that PBKDF2 with HMAC-SHA256 derives, of `dk_len` bytes.
pub uninterp spec fn pbkdf2_hmac_sha256(
    iterations: nat,
    salt: Seq<u8>,
    secret: Seq<u8>,
    dk_len: nat,
) -> Seq<u8>;

/// Relies on `ring::pbkdf2::derive` with `PBKDF2_HMAC_SHA256`: the output
/// buffer is filled with the derived key, which depends on the iteration
/// count, the salt, the secret and the buffer's length alone. It panics only
/// on a zero count or on inputs too long for the digest.
#[verifier::external_body]
fn pbkdf2_sha256(iterations: u32, salt: &[u8], secret: &[u8]) -> (r: Credential)
    requires
        iterations > 0,
        salt@.len() < MAX_DIGEST_INPUT,
        secret@.len() < MAX_DIGEST_INPUT,
    ensures
        r@ == pbkdf2_hmac_sha256(iterations as nat, salt@, secret@, CREDENTIAL_LEN as nat),
{
    let mut out = [0u8; CREDENTIAL_LEN];
    let count = std::num::NonZeroU32::new(iterations).unwrap();
    ring::pbkdf2::derive(ring::pbkdf2::PBKDF2_HMAC_SHA256, count, salt, secret, &mut out);
    out
}

/// The full salt: the UTF-8 bytes of the salt component, then those of the
/// user identifier.
pub open spec fn full_salt(component: Seq<char>, identifier: Seq<char>) -> Seq<u8> {
    encode_utf8(component) + encode_utf8(identifier)
}

/// The raw credential of an account.
pub open spec fn credential_of(
    component: Seq<char>,
    identifier: Seq<char>,
    password: Seq<char>,
) -> Seq<u8> {
    pbkdf2_hmac_sha256(
        PBKDF2_ITERATIONS as nat,
        full_salt(component, identifier),
        encode_utf8(password),
        CREDENTIAL_LEN as nat,
    )
}

/// The stored form of an account's credential: its upper-case hexadecimal text.
pub open spec fn credential_hex(
    component: Seq<char>,
    identifier: Seq<char>,
    password: Seq<char>,
) -> Seq<char> {
    hex_upper(credential_of(component, identifier, password))
}

/// Inputs short enough for the digest.
pub open spec fn derivable(component: Seq<char>, identifier: Seq<char>, password: Seq<char>) -> bool {
    &&& component.len() + identifier.len() < MAX_DIGEST_INPUT / 4
    &&& password.len() < MAX_DIGEST_INPUT / 4
}

/// UTF-8 encoding never takes more than four bytes per character.
pub proof fn lemma_encode_utf8_len(s: Seq<char>)
    ensures
        encode_utf8(s).len() <= 4 * s.len(),
    decreases s.len(),
{
    if s.len() > 0 {
        lemma_encode_utf8_len(s.drop_first());
    }
}

/// Concatenates the salt component and the identifier, component first.
pub fn compose_salt(salt_component: &str, identifier: &str) -> (r: Vec<u8>)
    ensures
        r@ == full_salt(salt_component@, identifier@),
{
    let mut res: Vec<u8> = Vec::new();
    res.extend_from_slice(salt_component.as_bytes());
    res.extend_from_slice(identifier.as_bytes());
    assert(res@ =~= full_salt(salt_component@, identifier@));
    res
}

/// Derives the credential of an account from its full salt and password.
pub fn derive_credential(full_salt: &[u8], password: &str) -> (r: Credential)
    requires
        full_salt@.len() < MAX_DIGEST_INPUT,
        password@.len() < MAX_DIGEST_INPUT / 4,
    ensures
        r@ == pbkdf2_hmac_sha256(
            PBKDF2_ITERATIONS as nat,
            full_salt@,
            encode_utf8(password@),
            CREDENTIAL_LEN as nat,
        ),
{
    proof {
        lemma_encode_utf8_len(password@);
    }
    pbkdf2_sha256(PBKDF2_ITERATIONS, full_salt, password.as_bytes())
}

/// Renders a raw credential as upper-case hexadecimal text.
pub fn credential_to_hex(c: &Credential) -> (r: String)
    ensures
        r@ == hex_upper(c@),
        r@.len() == 2 * CREDENTIAL_LEN,
        is_upper_hex(r@),
{
    proof {
        lemma_hex_upper_shape(c@);
    }
    encode_hex_upper(vstd::array::array_as_slice(c))
}

/// Derives the stored credential text of `email` and `password` under the
/// given salt component.
pub fn gen_pw_hash(salt_component: &str, email: &str, password: &str) -> (r: String)
    requires
        derivable(salt_component@, email@, password@),
    ensures
        r@ == credential_hex(salt_component@, email@, password@),
        r@.len() == 2 * CREDENTIAL_LEN,
        is_upper_hex(r@),
{
    let salt = compose_salt(salt_component, email);
    proof {
        lemma_encode_utf8_len(salt_component@);
        lemma_encode_utf8_len(email@);
    }
    let c = derive_credential(salt.as_slice(), password);
    credential_to_hex(&c)
}

/// Issues an organizer account under the salt component stored in the first
/// row of the salt table. Without such a row nothing is issued.
pub fn issue_organizer(first_row: Option<Salt>, email: &str, password: &str) -> (r: Result<
    NewUser,
    CredentialError,
>)
    requires
        first_row is Some ==> derivable(first_row->0.salt@, email@, password@),
    ensures
        first_row is None <==> r == Err::<NewUser, CredentialError>(
            CredentialError::NoSaltConfigured,
        ),
        first_row is Some ==> r is Ok,
        r is Ok ==> r->Ok_0.email@ == email@ && r->Ok_0.password@ == credential_hex(
            first_row->0.salt@,
            email@,
            password@,
        ),
        r is Ok ==> r->Ok_0.password@.len() == 2 * CREDENTIAL_LEN && is_upper_hex(
            r->Ok_0.password@,
        ),
{
    match salt_component_from_db(first_row) {
        Ok(component) => {
            let hash = gen_pw_hash(component.as_str(), email, password);
            Ok(NewUser { email: email.to_string(), password: hash })
        },
        Err(e) => Err(e),
    }
}

/// UTF-8 encoding of a concatenation is the concatenation of the encodings.
pub proof fn lemma_encode_utf8_concat(a: Seq<char>, b: Seq<char>)
    ensures
        encode_utf8(a + b) == encode_utf8(a) + encode_utf8(b),
    decreases a.len(),
{
    if a.len() == 0 {
        assert(a + b =~= b);
        assert(encode_utf8(a) + encode_utf8(b) =~= encode_utf8(b));
    } else {
        assert((a + b).drop_first() =~= a.drop_first() + b);
        lemma_encode_utf8_concat(a.drop_first(), b);
        assert(encode_utf8(a + b) =~= encode_utf8(a) + encode_utf8(b));
    }
}

/// The credential is a function of the salt component, the identifier and the
/// password: equal inputs give the equal stored text, on every call.
pub proof fn lemma_derivation_deterministic(
    c1: Seq<char>,
    i1: Seq<char>,
    p1: Seq<char>,
    c2: Seq<char>,
    i2: Seq<char>,
    p2: Seq<char>,
)
    requires
        c1 == c2,
        i1 == i2,
        p1 == p2,
    ensures
        credential_of(c1, i1, p1) == credential_of(c2, i2, p2),
        credential_hex(c1, i1, p1) == credential_hex(c2, i2, p2),
{
}

/// Two accounts whose salt components have the same length and that differ in
/// the salt component, the identifier or the password hand the key derivation
/// different inputs: a different full salt or a different password.
pub proof fn lemma_distinct_inputs_reach_derivation(
    c1: Seq<char>,
    i1: Seq<char>,
    p1: Seq<char>,
    c2: Seq<char>,
    i2: Seq<char>,
    p2: Seq<char>,
)
    requires
        c1.len() == c2.len(),
        c1 != c2 || i1 != i2 || p1 != p2,
    ensures
        full_salt(c1, i1) != full_salt(c2, i2) || encode_utf8(p1) != encode_utf8(p2),
{
    if full_salt(c1, i1) == full_salt(c2, i2) && encode_utf8(p1) == encode_utf8(p2) {
        lemma_encode_utf8_concat(c1, i1);
        lemma_encode_utf8_concat(c2, i2);
        encode_utf8_decode_utf8(c1 + i1);
        encode_utf8_decode_utf8(c2 + i2);
        encode_utf8_decode_utf8(p1);
        encode_utf8_decode_utf8(p2);
        assert(c1 + i1 == c2 + i2);
        assert(c1 =~= (c1 + i1).subrange(0, c1.len() as int));
        assert(c2 =~= (c2 + i2).subrange(0, c2.len() as int));
        assert(i1 =~= (c1 + i1).subrange(c1.len() as int, (c1 + i1).len() as int));
        assert(i2 =~= (c2 + i2).subrange(c2.len() as int, (c2 + i2).len() as int));
    }
}

} // verus!
