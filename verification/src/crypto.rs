//! Password hashing for the FTP credentials (Argon2id, 64 MiB, 3 passes,
//! 4 lanes, 32-byte output).
use vstd::prelude::*;
use argon2::password_hash::{PasswordHash, PasswordHasher, PasswordVerifier, SaltString};
use zeroize::Zeroizing;
use vstd::utf8::encode_utf8;
use crate::text::decimal;

verus! {

/// Memory cost in KiB.
pub const MEMORY_COST: u32 = 65536;

/// Number of passes.
pub const TIME_COST: u32 = 3;

/// Degree of parallelism.
pub const PARALLELISM: u32 = 4;

/// Length of the hash output in bytes.
pub const OUTPUT_LENGTH: usize = 32;

/// The longest password, in UTF-8 bytes, that Argon2 accepts.
pub const MAX_PASSWORD_BYTES: u64 = 0xFFFF_FFFF;

/// A stored password hash (PHC string) and its salt.
#[derive(Debug, Clone)]
pub struct HashedPassword {
    pub hash: String,
    pub salt: String,
}

/// The PHC prefix of an Argon2id (version 0x13) hash with memory `m_cost`,
/// `t_cost` passes and `p_cost` lanes: `$argon2id$v=19$m=..,t=..,p=..$`.
pub open spec fn phc_prefix_for(m_cost: nat, t_cost: nat, p_cost: nat) -> Seq<char> {
    "$argon2id$v=19$m="@ + decimal(m_cost) + ",t="@ + decimal(t_cost) + ",p="@ + decimal(p_cost) + "$"@
}

/// The PHC prefix of every hash made here.
pub open spec fn phc_prefix() -> Seq<char> {
    phc_prefix_for(MEMORY_COST as nat, TIME_COST as nat, PARALLELISM as nat)
}

/// Length of the unpadded base64 text of `n` bytes.
pub open spec fn b64_unpadded_len(n: nat) -> nat {
    (4 * n + 2) / 3
}

/// `phc` is a PHC string made of `prefix`, the salt `salt`, `$` and a hash
/// of `output_len` bytes in unpadded base64.
pub open spec fn phc_layout(phc: Seq<char>, prefix: Seq<char>, salt: Seq<char>, output_len: nat) -> bool {
    &&& phc.len() == prefix.len() + salt.len() + 1 + b64_unpadded_len(output_len)
    &&& phc.subrange(0, prefix.len() as int) == prefix
    &&& phc.subrange(prefix.len() as int, (prefix.len() + salt.len()) as int) == salt
    &&& phc[(prefix.len() + salt.len()) as int] == '$'
}

/// Whether `argon2`'s verifier accepts `password` against the PHC string
/// `stored`, recomputing the hash with the algorithm, version, parameters
/// and salt stored in that string; false when `stored` does not parse.
pub uninterp spec fn argon2id_verifies(password: Seq<char>, stored: Seq<char>) -> bool;

/// Hashes with `argon2::Argon2::from(Params::new(m_cost, t_cost, p_cost,
/// Some(output_len)))`, which uses the crate's default algorithm (Argon2id)
/// and version (0x13), and a salt from `SaltString::generate(OsRng)`
/// (16 random bytes, 22 base64 characters). The salt is random; of every
/// outcome the PHC string is the prefix of those parameters, the salt, `$`
/// and the `output_len`-byte hash in unpadded base64, and verifying the same
/// password against it succeeds. `requires` holds the parameter ranges that
/// `Params::new` and the PHC output accept (an output of 10 to 64 bytes) and
/// Argon2's password length limit.
#[verifier::external_body]
fn argon2_hash(password: String, m_cost: u32, t_cost: u32, p_cost: u32, output_len: usize) -> (r: (String, String))
    requires
        encode_utf8(password@).len() <= MAX_PASSWORD_BYTES,
        1 <= p_cost <= 0xFF_FFFF,
        8 * p_cost <= m_cost,
        1 <= t_cost,
        10 <= output_len <= 64,
    ensures
        r.1@.len() == 22,
        phc_layout(r.0@, phc_prefix_for(m_cost as nat, t_cost as nat, p_cost as nat), r.1@, output_len as nat),
        argon2id_verifies(password@, r.0@),
{
    let password = Zeroizing::new(password);
    let salt = SaltString::generate(&mut argon2::password_hash::rand_core::OsRng);
    let params = argon2::Params::new(m_cost, t_cost, p_cost, Some(output_len)).unwrap();
    let hash = argon2::Argon2::from(params).hash_password(password.as_bytes(), &salt).unwrap();
    (hash.to_string(), salt.to_string())
}

/// Verifies with `argon2::PasswordVerifier::verify_password` (on
/// `Argon2::default()`, which takes algorithm, version and parameters from
/// the stored string) after parsing the PHC string with `PasswordHash::new`
/// (a string that does not parse is rejected).
#[verifier::external_body]
fn argon2_verify(password: String, stored_hash: &str) -> (r: bool)
    ensures
        r == argon2id_verifies(password@, stored_hash@),
{
    let password = Zeroizing::new(password);
    let parsed = match PasswordHash::new(stored_hash) {
        Ok(h) => h,
        Err(_) => return false,
    };
    argon2::Argon2::default().verify_password(password.as_bytes(), &parsed).is_ok()
}

/// Hashes a password with a fresh random salt: Argon2id with the memory,
/// time, parallelism and output length above.
pub fn hash_password(password: String) -> (r: HashedPassword)
    requires
        encode_utf8(password@).len() <= MAX_PASSWORD_BYTES,
    ensures
        r.salt@.len() == 22,
        phc_layout(r.hash@, phc_prefix(), r.salt@, OUTPUT_LENGTH as nat),
        r.hash@.len() == phc_prefix().len() + 22 + 1 + 43,
        argon2id_verifies(password@, r.hash@),
{
    let (hash, salt) = argon2_hash(password, MEMORY_COST, TIME_COST, PARALLELISM, OUTPUT_LENGTH);
    HashedPassword { hash, salt }
}

/// Whether `password` matches the stored hash.
pub fn verify_password(password: String, stored_hash: &str) -> (r: bool)
    ensures
        r == argon2id_verifies(password@, stored_hash@),
{
    argon2_verify(password, stored_hash)
}

/// The hash stored for saved credentials: nothing for anonymous access or
/// an empty password, else a fresh Argon2id hash of the password.
pub fn stored_password_hash(anonymous: bool, password: String) -> (r: String)
    requires
        !anonymous ==> encode_utf8(password@).len() <= MAX_PASSWORD_BYTES,
    ensures
        (anonymous || password@.len() == 0) ==> r@.len() == 0,
        !(anonymous || password@.len() == 0) ==> (exists|salt: Seq<char>|
            salt.len() == 22 && #[trigger] phc_layout(r@, phc_prefix(), salt, OUTPUT_LENGTH as nat))
            && argon2id_verifies(password@, r@),
{
    if anonymous || password.as_str().unicode_len() == 0 {
        String::new()
    } else {
        hash_password(password).hash
    }
}

} // verus!
