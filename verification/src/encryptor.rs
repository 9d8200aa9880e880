use vstd::prelude::*;

verus! {

/// What bcrypt's check of a plaintext against a stored hash returns: a pure
/// function of the two strings, since the salt is embedded in the hash.
pub uninterp spec fn bcrypt_accepts(data: Seq<char>, hash: Seq<char>) -> bool;

/// The strings on which bcrypt's check succeeds at all: the well-formed
/// bcrypt hashes -- 60 ASCII characters in the bcrypt layout, with a known
/// version prefix and an in-range cost. A pure function of the hash string
/// alone; the plaintext plays no part in whether the check runs.
pub uninterp spec fn bcrypt_well_formed(hash: Seq<char>) -> bool;

/// One-way credential hashing, pluggable behind the creation workflow. An
/// implementation should use a slow, salted algorithm fit for credential
/// storage; `verify` exists for later authentication use, creation only
/// calls `encrypt`.
pub trait Encryptor {
    fn encrypt(&self, data: &str) -> Result<String, String>;

    fn verify(&self, data: &str, hash: &str) -> Result<bool, String>;
}

/// The default implementation, backed by the bcrypt algorithm at its
/// default cost factor.
pub struct BcryptEncryptor;

/// Relies on bcrypt::hash at bcrypt::DEFAULT_COST: a salted, adaptive,
/// one-way hash of the plaintext. The salt is drawn fresh from the
/// operating system on every call, so nothing is promised of the value
/// itself; a successful hash is always rendered in the fixed 60-character
/// format, which bcrypt::verify re-parses without complaint, and it
/// verifies against its own plaintext, since bcrypt::verify recomputes the
/// digest with the salt and cost embedded in the hash and truncates the
/// plaintext the same way bcrypt::hash does.
#[verifier::external_body]
fn hash_with_bcrypt(data: &str) -> (r: Result<String, String>)
    ensures
        r matches Ok(h) ==> h@.len() == 60 && bcrypt_well_formed(h@) && bcrypt_accepts(data@, h@),
{
    bcrypt::hash(data, bcrypt::DEFAULT_COST).map_err(|e| format!("Erro ao criptografar senha: {}", e))
}

/// Relies on bcrypt::verify: whether the plaintext matches the stored hash,
/// a deterministic function of the two arguments alone. The call succeeds
/// exactly on a well-formed hash: it fails only while parsing the hash
/// string or rejecting its embedded cost, before the plaintext matters.
#[verifier::external_body]
fn verify_with_bcrypt(data: &str, hash: &str) -> (r: Result<bool, String>)
    ensures
        r is Ok <==> bcrypt_well_formed(hash@),
        r is Ok ==> r->Ok_0 == bcrypt_accepts(data@, hash@),
{
    bcrypt::verify(data, hash).map_err(|e| format!("Erro ao validar senha: {}", e))
}

impl Encryptor for BcryptEncryptor {
    /// A successful hash has the fixed 60-character shape, is itself a
    /// well-formed bcrypt hash, and verifies against the plaintext it was
    /// derived from.
    fn encrypt(&self, data: &str) -> (r: Result<String, String>)
        ensures
            r matches Ok(h) ==> h@.len() == 60 && bcrypt_well_formed(h@) && bcrypt_accepts(
                data@,
                h@,
            ),
    {
        hash_with_bcrypt(data)
    }

    /// The check succeeds exactly on a well-formed bcrypt hash, and then
    /// answers exactly whether the plaintext matches it. Together with
    /// `encrypt`'s contract: hashing a plaintext and verifying it against
    /// the result yields Ok(true).
    fn verify(&self, data: &str, hash: &str) -> (r: Result<bool, String>)
        ensures
            r is Ok <==> bcrypt_well_formed(hash@),
            r is Ok ==> r->Ok_0 == bcrypt_accepts(data@, hash@),
    {
        verify_with_bcrypt(data, hash)
    }
}

} // verus!
