use vstd::prelude::*;
use vstd::string::StringSliceAdditionalSpecFns;

use crate::db::{AddLoginToken, AddUser, Next, PromoteUser, Query, QueryKind, RemoveUser, Reply};
use crate::error::ApiError;
use crate::pswd::hash_password;
use crate::time::{expiration_from_spec, token_expiration, Timestamp, CLOCK_SECS_BOUND};
use crate::types::{token_text, LoginToken, UserId, LOGIN_TOKEN_LEN, TOKEN_ALPHABET};

verus! {

/// Body of a `/create-user` request.
#[derive(Debug)]
pub struct CreateUser {
    pub username: String,
    pub password: String,
}

/// Body of a `/get-userid-from-token` request.
#[derive(Debug)]
pub struct GetUseridFromTokenArgs {
    pub token: LoginToken,
}

/// Body of a `/login` request.
#[derive(Debug)]
pub struct LoginArgs {
    pub username: String,
    pub password: String,
    pub remember: bool,
}

/// Body of a `/promote-user` request.
#[derive(Debug)]
pub struct PromoteUserArgs {
    pub token: LoginToken,
    pub user_to_promote: UserId,
}

/// What a password check gave.
pub type PasswordCheck = Result<bool, argon2::password_hash::Error>;

/// `/create-user`: hashes the password, then adds the user (the first user
/// becomes an administrator); answers nothing on success.
#[derive(Debug)]
pub struct CreateUserFlow {
    pub adding: AddUser,
}

impl CreateUserFlow {
    pub open spec fn expects(&self) -> Option<QueryKind> {
        self.adding.expects()
    }

    pub open spec fn lift(n: Next<AddUser, UserId>) -> Next<CreateUserFlow, ()> {
        match n {
            Next::Ask(a, q) => Next::Ask(CreateUserFlow { adding: a }, q),
            Next::Check(a, h) => Next::Check(CreateUserFlow { adding: a }, h),
            Next::Finished(Ok(_)) => Next::Finished(Ok(())),
            Next::Finished(Err(e)) => Next::Finished(Err(e)),
        }
    }

    fn lift_exec(n: Next<AddUser, UserId>) -> (r: Next<CreateUserFlow, ()>)
        ensures
            r == Self::lift(n),
    {
        match n {
            Next::Ask(a, q) => Next::Ask(CreateUserFlow { adding: a }, q),
            Next::Check(a, h) => Next::Check(CreateUserFlow { adding: a }, h),
            Next::Finished(Ok(_)) => Next::Finished(Ok(())),
            Next::Finished(Err(e)) => Next::Finished(Err(e)),
        }
    }

    /// How the request goes on once the password was hashed.
    pub open spec fn start_spec(username: String, hashed: Result<String, argon2::password_hash::Error>) -> Next<CreateUserFlow, ()> {
        match hashed {
            Err(e) => Next::Finished(Err(ApiError::PasswordHash(e))),
            Ok(h) => Self::lift(AddUser::start_spec(username, h)),
        }
    }

    pub fn start_with(username: String, hashed: Result<String, argon2::password_hash::Error>) -> (n: Next<CreateUserFlow, ()>)
        ensures
            n == Self::start_spec(username, hashed),
    {
        match hashed {
            Err(e) => Next::Finished(Err(ApiError::PasswordHash(e))),
            Ok(h) => Self::lift_exec(AddUser::start(username, h)),
        }
    }

    /// Hashes the password with a fresh salt and starts adding the user.
    ///
    /// For every password of at most `u32::MAX` bytes hashing succeeds, so the
    /// request goes on to add the user with the name and a default-parameter
    /// Argon2id string of the password, under some salt, that verifies it.
    pub fn start(username: String, password: &str) -> (n: Next<CreateUserFlow, ()>)
        ensures
            exists|hashed: Result<String, argon2::password_hash::Error>|
                n == Self::start_spec(username, hashed) && (password.spec_bytes().len()
                    <= u32::MAX ==> hashed is Ok) && (hashed matches Ok(h) ==> (
                crate::pswd::password_check_spec(password.spec_bytes(), h@) == Some(true)
                    && h@.take(15) == "$argon2id$v=19$"@ && exists|salt: Seq<char>|
                    crate::pswd::is_encoded_salt(salt) && crate::pswd::argon2_phc(
                    password.spec_bytes(),
                    salt,
                ) == Some(h@) && crate::pswd::is_argon2_phc_with_salt(h@, salt))),
    {
        let hashed = hash_password(password);
        let ghost g = hashed;
        let n = Self::start_with(username, hashed);
        assert(n == Self::start_spec(username, g));
        n
    }

    pub open spec fn next_of(self, r: Reply) -> Next<CreateUserFlow, ()> {
        Self::lift(self.adding.next_of(r))
    }

    pub fn on_reply(self, r: Reply) -> (n: Next<CreateUserFlow, ()>)
        requires
            self.expects() matches Some(k) && r.answers(k),
        ensures
            n == self.next_of(r),
    {
        Self::lift_exec(self.adding.on_reply(r))
    }
}

/// `/login`: finds the user by name, reads the password hash, stores a fresh
/// token with its expiration, then checks the password and answers the token
/// only if it matches. The token is stored whatever the check gives.
#[derive(Debug)]
pub enum LoginFlow {
    AwaitUser { remember: bool },
    AwaitHash { user: UserId, remember: bool },
    Storing { token: LoginToken, hash: String, store: AddLoginToken },
    AwaitPassword { token: LoginToken },
}

/// A token drawn for a login, with the expiration it is stored with.
pub type Minted = (LoginToken, Timestamp);

impl LoginFlow {
    pub open spec fn expects(&self) -> Option<QueryKind> {
        match self {
            LoginFlow::AwaitUser { .. } => Some(QueryKind::UserByName),
            LoginFlow::AwaitHash { .. } => Some(QueryKind::PasswordHash),
            LoginFlow::Storing { store, .. } => store.expects(),
            LoginFlow::AwaitPassword { .. } => None,
        }
    }

    /// Whether this step draws a token: the password hash has just arrived.
    pub open spec fn mints_on(&self, r: Reply) -> bool {
        self is AwaitHash && r is Text
    }

    /// What holds of every token and expiration that a login draws: the token
    /// that some twenty random draws make, and an expiration of the token
    /// lifetime after some instant that the clock can give.
    pub open spec fn fresh(minted: Minted, remember: bool) -> bool {
        &&& exists|draws: Seq<u32>| draws.len() == LOGIN_TOKEN_LEN && minted.0@ == token_text(draws)
        &&& minted.0@.len() == LOGIN_TOKEN_LEN
        &&& forall|i: int| 0 <= i < minted.0@.len() ==> TOKEN_ALPHABET@.contains(#[trigger] minted.0@[i])
        &&& exists|now: Timestamp|
            0 <= now.secs <= CLOCK_SECS_BOUND && now.nanos < 1_000_000_000 && minted.1
                == expiration_from_spec(now, remember)
    }

    pub open spec fn start_spec(username: String, remember: bool) -> Next<LoginFlow, LoginToken> {
        Next::Ask(LoginFlow::AwaitUser { remember }, Query::UserByName(username))
    }

    pub fn start(username: String, remember: bool) -> (n: Next<LoginFlow, LoginToken>)
        ensures
            n == Self::start_spec(username, remember),
    {
        Next::Ask(LoginFlow::AwaitUser { remember }, Query::UserByName(username))
    }

    pub open spec fn lift(token: LoginToken, hash: String, n: Next<AddLoginToken, ()>) -> Next<
        LoginFlow,
        LoginToken,
    > {
        match n {
            Next::Ask(s, q) => Next::Ask(LoginFlow::Storing { token, hash, store: s }, q),
            Next::Check(s, h) => Next::Check(LoginFlow::Storing { token, hash, store: s }, h),
            Next::Finished(Ok(())) => Next::Check(LoginFlow::AwaitPassword { token }, hash),
            Next::Finished(Err(e)) => Next::Finished(Err(e)),
        }
    }

    fn lift_exec(token: LoginToken, hash: String, n: Next<AddLoginToken, ()>) -> (r: Next<
        LoginFlow,
        LoginToken,
    >)
        ensures
            r == Self::lift(token, hash, n),
    {
        match n {
            Next::Ask(s, q) => Next::Ask(LoginFlow::Storing { token, hash, store: s }, q),
            Next::Check(s, h) => Next::Check(LoginFlow::Storing { token, hash, store: s }, h),
            Next::Finished(Ok(())) => Next::Check(LoginFlow::AwaitPassword { token }, hash),
            Next::Finished(Err(e)) => Next::Finished(Err(e)),
        }
    }

    /// The next step on reply `r`; `minted` is the token and expiration drawn
    /// when the password hash arrives, and matters only then.
    pub open spec fn next_of(self, r: Reply, minted: Option<Minted>) -> Next<LoginFlow, LoginToken> {
        match self {
            LoginFlow::AwaitUser { remember } => match r {
                Reply::Failed(m) => Next::Finished(Err(ApiError::Database(m))),
                Reply::Id(id) => Next::Ask(
                    LoginFlow::AwaitHash { user: UserId(id), remember },
                    Query::PasswordHash(UserId(id)),
                ),
                _ => arbitrary(),
            },
            LoginFlow::AwaitHash { user, .. } => match r {
                Reply::Failed(m) => Next::Finished(Err(ApiError::Database(m))),
                Reply::Text(hash) => match minted {
                    Some((token, expiration)) => Self::lift(
                        token,
                        hash,
                        AddLoginToken::start_spec(user, token, expiration),
                    ),
                    None => arbitrary(),
                },
                _ => arbitrary(),
            },
            LoginFlow::Storing { token, hash, store } => Self::lift(token, hash, store.next_of(r)),
            LoginFlow::AwaitPassword { .. } => arbitrary(),
        }
    }

    /// The next step on reply `r`, with the token and expiration given
    /// (needed exactly when the password hash arrives).
    pub fn on_reply_with(self, r: Reply, minted: Option<Minted>) -> (n: Next<LoginFlow, LoginToken>)
        requires
            self.expects() matches Some(k) && r.answers(k),
            self.mints_on(r) ==> minted is Some,
        ensures
            n == self.next_of(r, minted),
    {
        match self {
            LoginFlow::AwaitUser { remember } => match r {
                Reply::Failed(m) => Next::Finished(Err(ApiError::Database(m))),
                Reply::Id(id) => Next::Ask(
                    LoginFlow::AwaitHash { user: UserId(id), remember },
                    Query::PasswordHash(UserId(id)),
                ),
                _ => unreached(),
            },
            LoginFlow::AwaitHash { user, .. } => match r {
                Reply::Failed(m) => Next::Finished(Err(ApiError::Database(m))),
                Reply::Text(hash) => match minted {
                    Some((token, expiration)) => {
                        let stored = token.clone();
                        Self::lift_exec(
                            token,
                            hash,
                            AddLoginToken::start(user, stored, expiration),
                        )
                    },
                    None => unreached(),
                },
                _ => unreached(),
            },
            LoginFlow::Storing { token, hash, store } => Self::lift_exec(
                token,
                hash,
                store.on_reply(r),
            ),
            LoginFlow::AwaitPassword { .. } => unreached(),
        }
    }

    /// The next step on reply `r`. When the password hash arrives, a fresh
    /// random token is drawn and its expiration is the token lifetime (long
    /// with "remember me") from now.
    pub fn on_reply(self, r: Reply) -> (n: Next<LoginFlow, LoginToken>)
        requires
            self.expects() matches Some(k) && r.answers(k),
        ensures
            exists|minted: Option<Minted>|
                n == self.next_of(r, minted) && (self.mints_on(r) ==> (minted matches Some(m)
                    && self matches LoginFlow::AwaitHash { remember, .. } && Self::fresh(
                    m,
                    remember,
                ))),
    {
        let minted = match (&self, &r) {
            (LoginFlow::AwaitHash { remember, .. }, Reply::Text(_)) => {
                let token = LoginToken::generate();
                let expiration = token_expiration(*remember);
                Some((token, expiration))
            },
            _ => None,
        };
        let ghost m = minted;
        let ghost s = self;
        let ghost reply = r;
        let n = self.on_reply_with(r, minted);
        assert(n == s.next_of(reply, m));
        n
    }

    /// The answer once the password was checked.
    pub open spec fn password_next(self, check: PasswordCheck) -> Next<LoginFlow, LoginToken> {
        match self {
            LoginFlow::AwaitPassword { token } => match check {
                Ok(true) => Next::Finished(Ok(token)),
                Ok(false) => Next::Finished(Err(ApiError::WrongPassword)),
                Err(e) => Next::Finished(Err(ApiError::PasswordHash(e))),
            },
            _ => arbitrary(),
        }
    }

    pub fn on_password_checked(self, check: PasswordCheck) -> (n: Next<LoginFlow, LoginToken>)
        requires
            self is AwaitPassword,
        ensures
            n == self.password_next(check),
    {
        match self {
            LoginFlow::AwaitPassword { token } => match check {
                Ok(true) => Next::Finished(Ok(token)),
                Ok(false) => Next::Finished(Err(ApiError::WrongPassword)),
                Err(e) => Next::Finished(Err(ApiError::PasswordHash(e))),
            },
            _ => unreached(),
        }
    }
}

/// `/delete-user`: finds the user of the token, reads the password hash,
/// checks the password, and removes the user only if it matches.
#[derive(Debug)]
pub enum DeleteUserFlow {
    AwaitUser,
    AwaitHash { user: UserId },
    AwaitPassword { user: UserId },
    Removing { removal: RemoveUser },
}

impl DeleteUserFlow {
    pub open spec fn expects(&self) -> Option<QueryKind> {
        match self {
            DeleteUserFlow::AwaitUser => Some(QueryKind::UserByToken),
            DeleteUserFlow::AwaitHash { .. } => Some(QueryKind::PasswordHash),
            DeleteUserFlow::AwaitPassword { .. } => None,
            DeleteUserFlow::Removing { removal } => removal.expects(),
        }
    }

    pub open spec fn start_spec(token: LoginToken) -> Next<DeleteUserFlow, ()> {
        Next::Ask(DeleteUserFlow::AwaitUser, Query::UserByToken(token))
    }

    pub fn start(token: LoginToken) -> (n: Next<DeleteUserFlow, ()>)
        ensures
            n == Self::start_spec(token),
    {
        Next::Ask(DeleteUserFlow::AwaitUser, Query::UserByToken(token))
    }

    pub open spec fn lift(n: Next<RemoveUser, ()>) -> Next<DeleteUserFlow, ()> {
        match n {
            Next::Ask(s, q) => Next::Ask(DeleteUserFlow::Removing { removal: s }, q),
            Next::Check(s, h) => Next::Check(DeleteUserFlow::Removing { removal: s }, h),
            Next::Finished(o) => Next::Finished(o),
        }
    }

    fn lift_exec(n: Next<RemoveUser, ()>) -> (r: Next<DeleteUserFlow, ()>)
        ensures
            r == Self::lift(n),
    {
        match n {
            Next::Ask(s, q) => Next::Ask(DeleteUserFlow::Removing { removal: s }, q),
            Next::Check(s, h) => Next::Check(DeleteUserFlow::Removing { removal: s }, h),
            Next::Finished(o) => Next::Finished(o),
        }
    }

    pub open spec fn next_of(self, r: Reply) -> Next<DeleteUserFlow, ()> {
        match self {
            DeleteUserFlow::AwaitUser => match r {
                Reply::Failed(m) => Next::Finished(Err(ApiError::Database(m))),
                Reply::Id(id) => Next::Ask(
                    DeleteUserFlow::AwaitHash { user: UserId(id) },
                    Query::PasswordHash(UserId(id)),
                ),
                _ => arbitrary(),
            },
            DeleteUserFlow::AwaitHash { user } => match r {
                Reply::Failed(m) => Next::Finished(Err(ApiError::Database(m))),
                Reply::Text(hash) => Next::Check(DeleteUserFlow::AwaitPassword { user }, hash),
                _ => arbitrary(),
            },
            DeleteUserFlow::AwaitPassword { .. } => arbitrary(),
            DeleteUserFlow::Removing { removal } => Self::lift(removal.next_of(r)),
        }
    }

    pub fn on_reply(self, r: Reply) -> (n: Next<DeleteUserFlow, ()>)
        requires
            self.expects() matches Some(k) && r.answers(k),
        ensures
            n == self.next_of(r),
    {
        match self {
            DeleteUserFlow::AwaitUser => match r {
                Reply::Failed(m) => Next::Finished(Err(ApiError::Database(m))),
                Reply::Id(id) => Next::Ask(
                    DeleteUserFlow::AwaitHash { user: UserId(id) },
                    Query::PasswordHash(UserId(id)),
                ),
                _ => unreached(),
            },
            DeleteUserFlow::AwaitHash { user } => match r {
                Reply::Failed(m) => Next::Finished(Err(ApiError::Database(m))),
                Reply::Text(hash) => Next::Check(DeleteUserFlow::AwaitPassword { user }, hash),
                _ => unreached(),
            },
            DeleteUserFlow::AwaitPassword { .. } => unreached(),
            DeleteUserFlow::Removing { removal } => Self::lift_exec(removal.on_reply(r)),
        }
    }

    pub open spec fn password_next(self, check: PasswordCheck) -> Next<DeleteUserFlow, ()> {
        match self {
            DeleteUserFlow::AwaitPassword { user } => match check {
                Ok(true) => Self::lift(RemoveUser::start_spec(user)),
                Ok(false) => Next::Finished(Err(ApiError::WrongPassword)),
                Err(e) => Next::Finished(Err(ApiError::PasswordHash(e))),
            },
            _ => arbitrary(),
        }
    }

    pub fn on_password_checked(self, check: PasswordCheck) -> (n: Next<DeleteUserFlow, ()>)
        requires
            self is AwaitPassword,
        ensures
            n == self.password_next(check),
    {
        match self {
            DeleteUserFlow::AwaitPassword { user } => match check {
                Ok(true) => Self::lift_exec(RemoveUser::start(user)),
                Ok(false) => Next::Finished(Err(ApiError::WrongPassword)),
                Err(e) => Next::Finished(Err(ApiError::PasswordHash(e))),
            },
            _ => unreached(),
        }
    }
}

/// `/promote-user`: finds the user of the token, checks that this user is an
/// administrator, and only then promotes the target user.
#[derive(Debug)]
pub enum PromoteUserFlow {
    AwaitRequester { target: UserId },
    AwaitAdminCheck { target: UserId },
    Promoting { promotion: PromoteUser },
}

impl PromoteUserFlow {
    pub open spec fn expects(&self) -> Option<QueryKind> {
        match self {
            PromoteUserFlow::AwaitRequester { .. } => Some(QueryKind::UserByToken),
            PromoteUserFlow::AwaitAdminCheck { .. } => Some(QueryKind::AdminRow),
            PromoteUserFlow::Promoting { promotion } => promotion.expects(),
        }
    }

    pub open spec fn start_spec(token: LoginToken, target: UserId) -> Next<PromoteUserFlow, ()> {
        Next::Ask(PromoteUserFlow::AwaitRequester { target }, Query::UserByToken(token))
    }

    pub fn start(token: LoginToken, target: UserId) -> (n: Next<PromoteUserFlow, ()>)
        ensures
            n == Self::start_spec(token, target),
    {
        Next::Ask(PromoteUserFlow::AwaitRequester { target }, Query::UserByToken(token))
    }

    pub open spec fn lift(n: Next<PromoteUser, ()>) -> Next<PromoteUserFlow, ()> {
        match n {
            Next::Ask(s, q) => Next::Ask(PromoteUserFlow::Promoting { promotion: s }, q),
            Next::Check(s, h) => Next::Check(PromoteUserFlow::Promoting { promotion: s }, h),
            Next::Finished(o) => Next::Finished(o),
        }
    }

    fn lift_exec(n: Next<PromoteUser, ()>) -> (r: Next<PromoteUserFlow, ()>)
        ensures
            r == Self::lift(n),
    {
        match n {
            Next::Ask(s, q) => Next::Ask(PromoteUserFlow::Promoting { promotion: s }, q),
            Next::Check(s, h) => Next::Check(PromoteUserFlow::Promoting { promotion: s }, h),
            Next::Finished(o) => Next::Finished(o),
        }
    }

    pub open spec fn next_of(self, r: Reply) -> Next<PromoteUserFlow, ()> {
        match self {
            PromoteUserFlow::AwaitRequester { target } => match r {
                Reply::Failed(m) => Next::Finished(Err(ApiError::Database(m))),
                Reply::Id(id) => Next::Ask(
                    PromoteUserFlow::AwaitAdminCheck { target },
                    Query::AdminRow(UserId(id)),
                ),
                _ => arbitrary(),
            },
            PromoteUserFlow::AwaitAdminCheck { target } => match r {
                Reply::Failed(m) => Next::Finished(Err(ApiError::Database(m))),
                Reply::MaybeId(Some(_)) => Self::lift(PromoteUser::start_spec(target)),
                Reply::MaybeId(None) => Next::Finished(Err(ApiError::NotAdmin)),
                _ => arbitrary(),
            },
            PromoteUserFlow::Promoting { promotion } => Self::lift(promotion.next_of(r)),
        }
    }

    pub fn on_reply(self, r: Reply) -> (n: Next<PromoteUserFlow, ()>)
        requires
            self.expects() matches Some(k) && r.answers(k),
        ensures
            n == self.next_of(r),
    {
        match self {
            PromoteUserFlow::AwaitRequester { target } => match r {
                Reply::Failed(m) => Next::Finished(Err(ApiError::Database(m))),
                Reply::Id(id) => Next::Ask(
                    PromoteUserFlow::AwaitAdminCheck { target },
                    Query::AdminRow(UserId(id)),
                ),
                _ => unreached(),
            },
            PromoteUserFlow::AwaitAdminCheck { target } => match r {
                Reply::Failed(m) => Next::Finished(Err(ApiError::Database(m))),
                Reply::MaybeId(Some(_)) => Self::lift_exec(PromoteUser::start(target)),
                Reply::MaybeId(None) => Next::Finished(Err(ApiError::NotAdmin)),
                _ => unreached(),
            },
            PromoteUserFlow::Promoting { promotion } => Self::lift_exec(promotion.on_reply(r)),
        }
    }
}

} // verus!
