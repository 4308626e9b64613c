use credential_issuer::deriver::{
    compose_salt, credential_to_hex, derive_credential, gen_pw_hash, issue_organizer,
    CREDENTIAL_LEN,
};
use credential_issuer::error::CredentialError;
use credential_issuer::model::Salt;
use credential_issuer::salt_manager::{
    gen_salt, salt_component_from_db, salt_component_from_entropy, salt_from_draw,
};

const KNOWN_VECTOR: &str = "8BB9455D5223E0FE4F67922BFB359312ADA64DD178D65002E1D0892978749FE4";

fn is_upper_hex(s: &str) -> bool {
    s.chars().all(|c| c.is_ascii_digit() || ('A'..='F').contains(&c))
}

fn stored(component: &str) -> Option<Salt> {
    Some(Salt { id: 1, salt: component.to_string() })
}

#[test]
fn compose_salt_puts_component_first() {
    assert_eq!(compose_salt("DEADBEEF", "alice"), b"DEADBEEFalice".to_vec());
    assert_ne!(compose_salt("DEADBEEF", "alice"), b"aliceDEADBEEF".to_vec());
}

#[test]
fn compose_salt_accepts_empty_identifier() {
    assert_eq!(compose_salt("DEADBEEF", ""), b"DEADBEEF".to_vec());
}

#[test]
fn compose_salt_keeps_utf8_bytes() {
    assert_eq!(compose_salt("AB", "é"), vec![b'A', b'B', 0xC3, 0xA9]);
}

#[test]
fn known_vector() {
    let h = gen_pw_hash("53414C54", "bob@example.com", "correct horse battery staple");
    assert_eq!(h, KNOWN_VECTOR);
}

#[test]
fn derivation_is_deterministic() {
    let a = gen_pw_hash("53414C54", "bob@example.com", "correct horse battery staple");
    let b = gen_pw_hash("53414C54", "bob@example.com", "correct horse battery staple");
    assert_eq!(a, b);
}

#[test]
fn single_character_changes_change_the_credential() {
    let base = gen_pw_hash("53414C54", "bob@example.com", "correct horse battery staple");
    assert_ne!(gen_pw_hash("53414C55", "bob@example.com", "correct horse battery staple"), base);
    assert_ne!(gen_pw_hash("53414C54", "bob@example.con", "correct horse battery staple"), base);
    assert_ne!(gen_pw_hash("53414C54", "bob@example.com", "correct horse battery staplf"), base);
}

#[test]
fn empty_password_output_shape() {
    let h = gen_pw_hash("DEADBEEF", "alice", "");
    assert_eq!(h, "C600922850AF1386409E12117E68BF2CCDB651B4A572C9696A2AC2D25BAB56D8");
    assert_eq!(h.len(), 64);
    assert!(is_upper_hex(&h));
}

#[test]
fn long_password_output_shape() {
    let password = "x".repeat(1024);
    let h = gen_pw_hash("DEADBEEF", "alice", &password);
    assert_eq!(h, "25ADE872EE28C348C43744206180DA56ADD15965EC72CA1279295A1FA37B032F");
    assert_eq!(h.len(), 64);
    assert!(is_upper_hex(&h));
}

#[test]
fn derive_credential_matches_hex_rendering() {
    let salt = compose_salt("53414C54", "bob@example.com");
    let c = derive_credential(&salt, "correct horse battery staple");
    assert_eq!(c.len(), CREDENTIAL_LEN);
    assert_eq!(c[0], 0x8B);
    assert_eq!(c[31], 0xE4);
    assert_eq!(credential_to_hex(&c), KNOWN_VECTOR);
}

#[test]
fn credential_to_hex_renders_nibbles_in_order() {
    let mut c = [0u8; CREDENTIAL_LEN];
    c[0] = 0xAB;
    c[1] = 0x09;
    c[31] = 0xF0;
    let h = credential_to_hex(&c);
    assert_eq!(h.len(), 64);
    assert!(h.starts_with("AB09"));
    assert!(h.ends_with("F0"));
}

#[test]
fn salt_component_from_entropy_is_hex() {
    let mut bytes = [0u8; 32];
    for (i, b) in bytes.iter_mut().enumerate() {
        *b = (i * 8) as u8;
    }
    let s = salt_component_from_entropy(&bytes);
    assert_eq!(s.len(), 64);
    assert!(s.starts_with("00081018"));
    assert!(s.ends_with("F8"));
}

#[test]
fn gen_salt_output_shape() {
    let s = gen_salt().unwrap();
    assert_eq!(s.len(), 64);
    assert!(is_upper_hex(&s));
}

#[test]
fn gen_salt_twice_differs() {
    let a = gen_salt().unwrap();
    let b = gen_salt().unwrap();
    assert_ne!(a, b);
}

#[test]
fn salt_component_from_db_reads_first_row() {
    assert_eq!(salt_component_from_db(stored("DEADBEEF")), Ok("DEADBEEF".to_string()));
    assert_eq!(salt_component_from_db(None), Err(CredentialError::NoSaltConfigured));
}

#[test]
fn issue_without_salt_fails() {
    let r = issue_organizer(None, "bob@example.com", "correct horse battery staple");
    assert!(matches!(r, Err(CredentialError::NoSaltConfigured)));
}

#[test]
fn issue_with_salt_stores_hash_not_password() {
    let u = issue_organizer(stored("53414C54"), "bob@example.com", "correct horse battery staple")
        .ok()
        .unwrap();
    assert_eq!(u.email, "bob@example.com");
    assert_eq!(u.password, KNOWN_VECTOR);
}

#[test]
fn failed_draw_gives_random_source_error() {
    let r = salt_from_draw(Err(ring::error::Unspecified));
    assert_eq!(r, Err(CredentialError::RandomSource));
}

#[test]
fn successful_draw_gives_its_rendering() {
    let mut bytes = [0u8; 32];
    bytes[0] = 0x5A;
    bytes[31] = 0xC3;
    let s = salt_from_draw(Ok(bytes)).unwrap();
    assert_eq!(s.len(), 64);
    assert!(is_upper_hex(&s));
    assert!(s.starts_with("5A00"));
    assert!(s.ends_with("00C3"));
}

#[test]
fn issued_password_is_64_upper_hex() {
    let u = issue_organizer(stored("DEADBEEF"), "alice", "").ok().unwrap();
    assert_eq!(u.password.len(), 64);
    assert!(is_upper_hex(&u.password));
    assert_ne!(u.password, "");
}
