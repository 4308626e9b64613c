use vstd::prelude::*;
use ring::rand::SecureRandom;
use crate::error::CredentialError;
use crate::hex::{encode_hex_upper, hex_upper, is_upper_hex, lemma_hex_upper_shape};
use crate::model::Salt;

verus! {

/// Number of random bytes behind a salt component.
pub const SALT_COMPONENT_BYTES: usize = 32;

#[verifier::external_type_specification]
#[verifier::external_body]
pub struct ExUnspecified(ring::error::Unspecified);

/// Relies on `ring::rand::SystemRandom::fill`: it fills the buffer from the
/// operating system's secure random source or reports that it could not.
/// Nothing is known of the bytes.
#[verifier::external_body]
fn system_random_bytes() -> (r: Result<[u8; SALT_COMPONENT_BYTES], ring::error::Unspecified>) {
    let mut buf = [0u8; SALT_COMPONENT_BYTES];
    ring::rand::SystemRandom::new().fill(&mut buf).map(|_| buf)
}

/// A well-formed salt component: the hexadecimal rendering of some
/// `SALT_COMPONENT_BYTES` bytes.
pub open spec fn is_salt_component(s: Seq<char>) -> bool {
    exists|b: Seq<u8>| b.len() == SALT_COMPONENT_BYTES && s == #[trigger] hex_upper(b)
}

/// Renders random bytes as a salt component.
pub fn salt_component_from_entropy(bytes: &[u8; SALT_COMPONENT_BYTES]) -> (r: String)
    ensures
        r@ == hex_upper(bytes@),
        r@.len() == 2 * SALT_COMPONENT_BYTES,
        is_upper_hex(r@),
        is_salt_component(r@),
{
    proof {
        lemma_hex_upper_shape(bytes@);
    }
    encode_hex_upper(vstd::array::array_as_slice(bytes))
}

/// Turns the outcome of a draw of random bytes into a salt component: the
/// bytes' rendering, or `RandomSource` when the draw failed. A failed draw
/// never yields a salt.
pub fn salt_from_draw(draw: Result<[u8; SALT_COMPONENT_BYTES], ring::error::Unspecified>) -> (r:
    Result<String, CredentialError>)
    ensures
        match draw {
            Ok(b) => r is Ok && r->Ok_0@ == hex_upper(b@) && r->Ok_0@.len() == 2
                * SALT_COMPONENT_BYTES && is_upper_hex(r->Ok_0@),
            Err(_) => r == Err::<String, CredentialError>(CredentialError::RandomSource),
        },
{
    match draw {
        Ok(bytes) => Ok(salt_component_from_entropy(&bytes)),
        Err(_) => Err(CredentialError::RandomSource),
    }
}

/// Draws a fresh salt component from the secure random source. The caller
/// stores it.
pub fn gen_salt() -> (r: Result<String, CredentialError>)
    ensures
        match r {
            Ok(s) => s@.len() == 2 * SALT_COMPONENT_BYTES && is_upper_hex(s@) && is_salt_component(s@),
            Err(e) => e == CredentialError::RandomSource,
        },
{
    salt_from_draw(system_random_bytes())
}

/// The salt component held by the first row of the salt table, if there is one.
pub fn salt_component_from_db(first_row: Option<Salt>) -> (r: Result<String, CredentialError>)
    ensures
        match first_row {
            Some(row) => r == Ok::<String, CredentialError>(row.salt),
            None => r == Err::<String, CredentialError>(CredentialError::NoSaltConfigured),
        },
{
    match first_row {
        Some(row) => Ok(row.salt),
        None => Err(CredentialError::NoSaltConfigured),
    }
}

} // verus!
