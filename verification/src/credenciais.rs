//! Credential hashing: a fresh random salt and a salted, memory-hard hash
//! of the plaintext secret, returned as a self-describing encoded string.

use vstd::prelude::*;
use argon2::PasswordHasher;
use crate::erros::AppError;

verus! {

/// The encoded hash string that the memory-hard hashing primitive derives
/// from a plaintext secret and a salt, with its default parameters. The
/// result is a function of the two arguments alone.
pub uninterp spec fn hash_argon2_de(senha: Seq<char>, sal: Seq<char>) -> Seq<char>;

/// Relies on `password_hash::SaltString::generate`: a fresh random salt of
/// 16 bytes, returned in its unpadded base64 text form of 22 characters.
/// The value depends on the random generator, so nothing else is stated.
#[verifier::external_body]
fn gerar_sal() -> (r: String)
    ensures
        r@.len() == 22,
{
    argon2::password_hash::SaltString::generate(&mut rand::rngs::OsRng).as_str().to_string()
}

/// Relies on `argon2::Argon2::hash_password` (through `PasswordHasher`) with
/// the crate's default parameters: on success, the PHC-encoded hash string,
/// determined by the secret and the salt alone. The encoded form always
/// carries the algorithm identifier, its parameters, the salt and the
/// derived digest, so it is longer than 64 characters.
#[verifier::external_body]
fn hash_com_sal(senha: &str, sal: &str) -> (r: Result<String, ()>)
    ensures
        r is Ok ==> r->Ok_0@ == hash_argon2_de(senha@, sal@),
        r is Ok ==> r->Ok_0@.len() > 64,
{
    let sal_b64 = match argon2::password_hash::Salt::from_b64(sal) {
        Ok(s) => s,
        Err(_) => {
            return Err(());
        },
    };
    argon2::Argon2::default()
        .hash_password(senha.as_bytes(), sal_b64)
        .map(|h| h.to_string())
        .map_err(|_| ())
}

/// Derives a salted hash of the plaintext secret under a fresh random salt.
/// On success the result is the hashing primitive's output for the secret
/// and some salt — never the plaintext itself, which is at most 64
/// characters wherever it passed validation.
pub fn gerar_hash_senha(senha: &str) -> (r: Result<String, AppError>)
    ensures
        r is Ok ==> exists|sal: Seq<char>| r->Ok_0@ == hash_argon2_de(senha@, sal),
        r is Ok ==> r->Ok_0@.len() > 64,
        r is Err ==> r == Err::<String, AppError>(AppError::Credenciais),
{
    let sal = gerar_sal();
    match hash_com_sal(senha, sal.as_str()) {
        Ok(h) => {
            proof {
                let salv = sal@;
                assert(h@ == hash_argon2_de(senha@, salv));
            }
            Ok(h)
        },
        Err(()) => Err(AppError::Credenciais),
    }
}

} // verus!
