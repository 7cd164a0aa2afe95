use vstd::prelude::*;
use vstd::string::{StrSliceExecFns, StringExecFns};

verus! {

/// The identifier of a user (the row id of the `users` table).
#[derive(Clone, Copy, PartialEq, Eq, Structural, Debug)]
pub struct UserId(pub i64);

/// Number of characters every login token has.
pub const LOGIN_TOKEN_LEN: usize = 20;

/// Why a string was refused as a login token.
#[derive(Clone, Copy, PartialEq, Eq, Structural, Debug)]
pub enum LoginTokenError {
    /// Fewer than twenty characters.
    LenCharMinViolated,
    /// More than twenty characters.
    LenCharMaxViolated,
}

/// A login token: a string of exactly twenty characters.
#[derive(Debug)]
pub struct LoginToken {
    inner: String,
}

impl View for LoginToken {
    type V = Seq<char>;

    closed spec fn view(&self) -> Seq<char> {
        self.inner@
    }
}

/// What `LoginToken::try_new` gives for a string with the characters `s`.
pub open spec fn login_token_check(s: Seq<char>) -> Result<(), LoginTokenError> {
    if s.len() < LOGIN_TOKEN_LEN {
        Err(LoginTokenError::LenCharMinViolated)
    } else if s.len() > LOGIN_TOKEN_LEN {
        Err(LoginTokenError::LenCharMaxViolated)
    } else {
        Ok(())
    }
}

impl LoginToken {
    #[verifier::type_invariant]
    spec fn well_formed(self) -> bool {
        self.inner@.len() == LOGIN_TOKEN_LEN
    }

    /// Validates `s` and wraps it; the minimum length is checked first.
    pub fn try_new(s: String) -> (r: Result<LoginToken, LoginTokenError>)
        ensures
            match login_token_check(s@) {
                Ok(()) => r matches Ok(t) && t@ == s@,
                Err(e) => r == Err::<LoginToken, LoginTokenError>(e),
            },
    {
        let n = s.as_str().unicode_len();
        if n < LOGIN_TOKEN_LEN {
            Err(LoginTokenError::LenCharMinViolated)
        } else if n > LOGIN_TOKEN_LEN {
            Err(LoginTokenError::LenCharMaxViolated)
        } else {
            Ok(LoginToken { inner: s })
        }
    }

    /// The token's characters.
    pub fn as_str(&self) -> (r: &str)
        ensures
            r@ == self@,
            r@.len() == LOGIN_TOKEN_LEN,
    {
        proof {
            use_type_invariant(self);
        }
        self.inner.as_str()
    }

    /// Gives the token's string back.
    pub fn into_inner(self) -> (r: String)
        ensures
            r@ == self@,
            r@.len() == LOGIN_TOKEN_LEN,
    {
        proof {
            use_type_invariant(&self);
        }
        self.inner
    }
}

/// The characters a generated login token is made of.
pub const TOKEN_ALPHABET: &'static str = "ABCDEFGHIJKLMNOPQRSTUVWXYZabcdefghijklmnopqrstuvwxyz0123456789";

/// A random number from the operating system's generator
/// (`OsRng::next_u32`, through `argon2`'s re-export of `rand_core`). Nothing
/// is stated of it: it is random.
#[verifier::external_body]
fn random_u32() -> (r: u32) {
    argon2::password_hash::rand_core::RngCore::next_u32(&mut argon2::password_hash::rand_core::OsRng)
}

/// The token that twenty random draws make: draw `i` picks character `i` by
/// its remainder modulo the alphabet's size.
pub open spec fn token_text(draws: Seq<u32>) -> Seq<char> {
    Seq::new(LOGIN_TOKEN_LEN as nat, |i: int| TOKEN_ALPHABET@[(draws[i] % 62) as int])
}

impl LoginToken {
    /// The token made of twenty draws, each picking the alphabet character at
    /// its remainder modulo 62.
    pub fn from_draws(draws: &Vec<u32>) -> (r: LoginToken)
        requires
            draws@.len() == LOGIN_TOKEN_LEN,
        ensures
            r@ == token_text(draws@),
            forall|i: int| 0 <= i < r@.len() ==> TOKEN_ALPHABET@.contains(#[trigger] r@[i]),
    {
        proof {
            reveal_strlit("ABCDEFGHIJKLMNOPQRSTUVWXYZabcdefghijklmnopqrstuvwxyz0123456789");
        }
        let alphabet_len = TOKEN_ALPHABET.unicode_len();
        assert(alphabet_len == 62);
        let mut s = String::new();
        let mut i: usize = 0;
        while i < LOGIN_TOKEN_LEN
            invariant
                i <= LOGIN_TOKEN_LEN,
                draws@.len() == LOGIN_TOKEN_LEN,
                alphabet_len == TOKEN_ALPHABET@.len(),
                alphabet_len == 62,
                s@ =~= token_text(draws@).take(i as int),
            decreases LOGIN_TOKEN_LEN - i,
        {
            let k: usize = (draws[i] % 62) as usize;
            let c = TOKEN_ALPHABET.substring_char(k, k + 1);
            s.append(c);
            assert(s@ =~= token_text(draws@).take(i + 1));
            i = i + 1;
        }
        assert(token_text(draws@).take(LOGIN_TOKEN_LEN as int) =~= token_text(draws@));
        assert forall|j: int| 0 <= j < s@.len() implies TOKEN_ALPHABET@.contains(#[trigger] s@[j]) by {
            let k = (draws@[j] % 62) as int;
            assert(s@[j] == TOKEN_ALPHABET@[k]);
        }
        LoginToken { inner: s }
    }

    /// A fresh random token: twenty draws from the operating system's random
    /// number generator, made into characters by `from_draws`.
    pub fn generate() -> (r: LoginToken)
        ensures
            exists|draws: Seq<u32>| draws.len() == LOGIN_TOKEN_LEN && r@ == token_text(draws),
            r@.len() == LOGIN_TOKEN_LEN,
            forall|i: int| 0 <= i < r@.len() ==> TOKEN_ALPHABET@.contains(#[trigger] r@[i]),
    {
        let mut draws: Vec<u32> = Vec::new();
        let mut i: usize = 0;
        while i < LOGIN_TOKEN_LEN
            invariant
                i <= LOGIN_TOKEN_LEN,
                draws@.len() == i,
            decreases LOGIN_TOKEN_LEN - i,
        {
            draws.push(random_u32());
            i = i + 1;
        }
        let r = LoginToken::from_draws(&draws);
        assert(draws@.len() == LOGIN_TOKEN_LEN && r@ == token_text(draws@));
        r
    }
}

impl Clone for LoginToken {
    fn clone(&self) -> (r: Self)
        ensures
            r == *self,
    {
        proof {
            use_type_invariant(self);
        }
        LoginToken { inner: self.inner.clone() }
    }
}

impl PartialEq for LoginToken {
    fn eq(&self, other: &Self) -> (r: bool) {
        self.inner == other.inner
    }
}

impl vstd::std_specs::cmp::PartialEqSpecImpl for LoginToken {
    open spec fn obeys_eq_spec() -> bool {
        true
    }

    open spec fn eq_spec(&self, other: &Self) -> bool {
        self@ == other@
    }
}

impl Eq for LoginToken {
}

} // verus!
