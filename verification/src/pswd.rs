use vstd::prelude::*;
use argon2::password_hash::{PasswordHasher, PasswordVerifier};
use vstd::string::StringSliceAdditionalSpecFns;

verus! {

/// The error type of the `password-hash` crate, which `argon2` re-exports.
#[verifier::external_type_specification]
#[verifier::external_body]
pub struct ExPasswordHashError(argon2::password_hash::Error);

/// The PHC string that Argon2 (default parameters: Argon2id, version 19)
/// makes of a password with a Base64 salt, or `None` where hashing fails.
pub uninterp spec fn argon2_phc(password: Seq<u8>, salt: Seq<char>) -> Option<Seq<char>>;

/// Whether a string parses as a PHC password-hash string.
pub uninterp spec fn phc_parses(hash: Seq<char>) -> bool;

/// Whether Argon2 verification of a password against a PHC string succeeds.
pub uninterp spec fn argon2_accepts(password: Seq<u8>, hash: Seq<char>) -> bool;

/// Whether `c` belongs to the standard Base64 alphabet.
pub open spec fn is_b64_char(c: char) -> bool {
    ||| ('A' as u32) <= (c as u32) <= ('Z' as u32)
    ||| ('a' as u32) <= (c as u32) <= ('z' as u32)
    ||| ('0' as u32) <= (c as u32) <= ('9' as u32)
    ||| c == '+'
    ||| c == '/'
}

/// Whether `s` is the unpadded standard Base64 encoding of sixteen bytes:
/// twenty-two characters of the alphabet, the last of which carries only two
/// bits (so it is `A`, `Q`, `g` or `w`).
pub open spec fn is_encoded_salt(s: Seq<char>) -> bool {
    &&& s.len() == 22
    &&& forall|i: int| 0 <= i < s.len() ==> is_b64_char(#[trigger] s[i])
    &&& (s[21] == 'A' || s[21] == 'Q' || s[21] == 'g' || s[21] == 'w')
}

/// How every string that Argon2 with its default parameters (Argon2id,
/// version 19, 19456 KiB, two passes, one lane) makes begins, up to its salt.
pub open spec fn argon2_default_header() -> Seq<char> {
    "$argon2id$v=19$m=19456,t=2,p=1$"@
}

/// Whether `h` is a default-parameter Argon2 PHC string with the salt `salt`:
/// the header, the salt, `$`, then the encoded hash.
pub open spec fn is_argon2_phc_with_salt(h: Seq<char>, salt: Seq<char>) -> bool {
    exists|rest: Seq<char>| h == argon2_default_header() + salt + seq!['$'] + rest
}

/// A fresh random salt: `SaltString::generate` with the operating system's
/// random number generator, as its Base64 text.
///
/// `SaltString::generate` fills sixteen random bytes and encodes them with
/// unpadded standard Base64 (`Encoding::B64`), so the text is such an
/// encoding; which bytes were drawn is not stated: they are random.
#[verifier::external_body]
fn generate_salt() -> (r: String)
    ensures
        is_encoded_salt(r@),
{
    argon2::password_hash::SaltString::generate(&mut argon2::password_hash::rand_core::OsRng).as_str().to_string()
}

/// `Argon2::default().hash_password(password, salt)` (the salt parsed by
/// `Salt::from_b64`), rendered as its PHC string.
///
/// The result is the named `argon2_phc` of the arguments. The source of
/// `argon2` and `password-hash` shows:
/// - the PHC string is `$argon2id$v=19$m=19456,t=2,p=1$`, the salt, `$`
///   and the encoded hash (`Display` of `PasswordHash`, default `Params`);
/// - hashing records the algorithm, version, parameters and salt in that
///   string, and verification recomputes the hash from exactly those, so the
///   string parses and verifies the same password;
/// - with a salt that decodes canonically to sixteen bytes and the default
///   parameters, the only error left is a password of more than `u32::MAX`
///   bytes (`verify_inputs`), so hashing succeeds for every shorter password.
#[verifier::external_body]
fn argon2_hash_password(password: &[u8], salt: &str) -> (r: Result<String, argon2::password_hash::Error>)
    ensures
        r is Ok <==> argon2_phc(password@, salt@) is Some,
        r matches Ok(h) ==> argon2_phc(password@, salt@) == Some(h@) && phc_parses(h@)
            && argon2_accepts(password@, h@) && is_argon2_phc_with_salt(h@, salt@),
        is_encoded_salt(salt@) && password@.len() <= u32::MAX ==> r is Ok,
{
    let salt = argon2::password_hash::Salt::from_b64(salt)?;
    argon2::Argon2::default().hash_password(password, salt).map(|h| h.to_string())
}

/// `PasswordHash::new(hash)` and, where it parses,
/// `Argon2::default().verify_password(password, &parsed)`: an error where the
/// string is no PHC string, else whether verification succeeded. The parser
/// refuses the empty string and every string whose first field (before the
/// first `$`) is not empty, so a string that does not begin with `$` is an
/// error.
#[verifier::external_body]
fn argon2_verify(password: &[u8], hash: &str) -> (r: Result<bool, argon2::password_hash::Error>)
    ensures
        r is Err <==> !phc_parses(hash@),
        r matches Ok(b) ==> b == argon2_accepts(password@, hash@),
        !(hash@.len() > 0 && hash@[0] == '$') ==> r is Err,
{
    let parsed = argon2::password_hash::PasswordHash::new(hash)?;
    Ok(argon2::Argon2::default().verify_password(password, &parsed).is_ok())
}

/// The text of a `password-hash` error (its `Display`). Nothing is stated of it.
#[verifier::external_body]
pub(crate) fn hash_error_text(e: &argon2::password_hash::Error) -> (r: String) {
    e.to_string()
}

/// Hashes a password with Argon2 and a fresh random salt, giving its PHC string.
///
/// Hashing succeeds for every password of at most `u32::MAX` bytes. Whatever
/// salt was drawn (the Base64 text of sixteen random bytes), the result is
/// Argon2's hash of the password with it: a default-parameter Argon2id
/// string that carries the salt, and that verifies the same password.
pub fn hash_password(password: &str) -> (r: Result<String, argon2::password_hash::Error>)
    ensures
        exists|salt: Seq<char>|
            is_encoded_salt(salt) && match r {
                Ok(h) => argon2_phc(password.spec_bytes(), salt) == Some(h@)
                    && is_argon2_phc_with_salt(h@, salt),
                Err(_) => argon2_phc(password.spec_bytes(), salt) is None,
            },
        password.spec_bytes().len() <= u32::MAX ==> r is Ok,
        r matches Ok(h) ==> phc_parses(h@) && argon2_accepts(password.spec_bytes(), h@),
        r matches Ok(h) ==> password_check_spec(password.spec_bytes(), h@) == Some(true),
        r matches Ok(h) ==> h@.take(15) == "$argon2id$v=19$"@,
{
    let salt = generate_salt();
    let r = argon2_hash_password(password.as_bytes(), salt.as_str());
    assert(is_encoded_salt(salt@) && match r {
        Ok(h) => argon2_phc(password.spec_bytes(), salt@) == Some(h@) && is_argon2_phc_with_salt(
            h@,
            salt@,
        ),
        Err(_) => argon2_phc(password.spec_bytes(), salt@) is None,
    });
    proof {
        reveal_strlit("$argon2id$v=19$m=19456,t=2,p=1$");
        reveal_strlit("$argon2id$v=19$");
        if r is Ok {
            let h = r->Ok_0;
            let rest = choose|rest: Seq<char>| h@ == argon2_default_header() + salt@ + seq!['$'] + rest;
            assert(h@.take(15) =~= "$argon2id$v=19$"@);
        }
    }
    r
}

/// What checking `password` against the PHC string `hash` gives: `None` for a
/// string that does not parse, else whether Argon2 accepts the password.
pub open spec fn password_check_spec(password: Seq<u8>, hash: Seq<char>) -> Option<bool> {
    if phc_parses(hash) {
        Some(argon2_accepts(password, hash))
    } else {
        None
    }
}

/// Checks a password against a PHC string, taking as long as the check takes.
pub fn password_verify_variable_time(password: &str, hash: &str) -> (r: Result<
    bool,
    argon2::password_hash::Error,
>)
    ensures
        match password_check_spec(password.spec_bytes(), hash@) {
            Some(b) => r == Ok::<bool, argon2::password_hash::Error>(b),
            None => r is Err,
        },
        !(hash@.len() > 0 && hash@[0] == '$') ==> r is Err,
{
    argon2_verify(password.as_bytes(), hash)
}

/// Whether the answer to a password check must wait until the fixed delay has
/// passed: every outcome but a successful match does.
pub fn fixed_delay_applies(check: &Result<bool, argon2::password_hash::Error>) -> (r: bool)
    ensures
        r == !(check matches Ok(true)),
{
    match check {
        Ok(true) => false,
        _ => true,
    }
}

} // verus!
