use vstd::prelude::*;

use crate::error::ApiError;
use crate::time::Timestamp;
use crate::types::{LoginToken, UserId};

verus! {

/// A statement to run against the database. The server runs each one as the
/// SQL written beside its variant and answers with a [`Reply`].
#[derive(Debug)]
pub enum Query {
    /// `SELECT id FROM users` (at most one row): answered with `MaybeId`.
    AnyUser,
    /// `INSERT INTO users (name, password_hash) VALUES (?, ?)`: answered with the new row id.
    InsertUser { name: String, password_hash: String },
    /// `SELECT name FROM users WHERE id = ?`: answered with `Text`.
    UserName(UserId),
    /// `SELECT id FROM users WHERE name = ?`: answered with `Id`.
    UserByName(String),
    /// `SELECT password_hash FROM users WHERE id = ?`: answered with `Text`.
    PasswordHash(UserId),
    /// `DELETE FROM users WHERE id = ?`: answered with `Done`.
    DeleteUser(UserId),
    /// `INSERT OR REPLACE INTO login_tokens (user, token, expiration) VALUES (?, ?, ?)`:
    /// answered with `Done`.
    InsertLoginToken { user: UserId, token: LoginToken, expiration: Timestamp },
    /// `SELECT user FROM login_tokens WHERE token = ?`: answered with `Id`.
    UserByToken(LoginToken),
    /// `INSERT INTO admins (user) VALUES (?)`: answered with `Done`.
    InsertAdmin(UserId),
    /// `SELECT id FROM admins WHERE user = ?` (at most one row): answered with `MaybeId`.
    AdminRow(UserId),
    /// Deletes the expired login tokens and vacuums: answered with `Done`.
    CleanupTokens,
}

/// The kind of a [`Query`], which fixes the kind of its reply.
#[derive(Clone, Copy, PartialEq, Eq, Structural, Debug)]
pub enum QueryKind {
    AnyUser,
    InsertUser,
    UserName,
    UserByName,
    PasswordHash,
    DeleteUser,
    InsertLoginToken,
    UserByToken,
    InsertAdmin,
    AdminRow,
    CleanupTokens,
}

impl Query {
    pub open spec fn kind_of(&self) -> QueryKind {
        match self {
            Query::AnyUser => QueryKind::AnyUser,
            Query::InsertUser { .. } => QueryKind::InsertUser,
            Query::UserName(_) => QueryKind::UserName,
            Query::UserByName(_) => QueryKind::UserByName,
            Query::PasswordHash(_) => QueryKind::PasswordHash,
            Query::DeleteUser(_) => QueryKind::DeleteUser,
            Query::InsertLoginToken { .. } => QueryKind::InsertLoginToken,
            Query::UserByToken(_) => QueryKind::UserByToken,
            Query::InsertAdmin(_) => QueryKind::InsertAdmin,
            Query::AdminRow(_) => QueryKind::AdminRow,
            Query::CleanupTokens => QueryKind::CleanupTokens,
        }
    }

    pub fn kind(&self) -> (r: QueryKind)
        ensures
            r == self.kind_of(),
    {
        match self {
            Query::AnyUser => QueryKind::AnyUser,
            Query::InsertUser { .. } => QueryKind::InsertUser,
            Query::UserName(_) => QueryKind::UserName,
            Query::UserByName(_) => QueryKind::UserByName,
            Query::PasswordHash(_) => QueryKind::PasswordHash,
            Query::DeleteUser(_) => QueryKind::DeleteUser,
            Query::InsertLoginToken { .. } => QueryKind::InsertLoginToken,
            Query::UserByToken(_) => QueryKind::UserByToken,
            Query::InsertAdmin(_) => QueryKind::InsertAdmin,
            Query::AdminRow(_) => QueryKind::AdminRow,
            Query::CleanupTokens => QueryKind::CleanupTokens,
        }
    }
}

/// What the database answered to a [`Query`].
#[derive(Debug)]
pub enum Reply {
    /// The query failed (also: no row where exactly one was expected); the
    /// text is the database error's message.
    Failed(String),
    /// A statement without result ran.
    Done,
    /// The one integer of a one-row result, or the id of an inserted row.
    Id(i64),
    /// The integer of the first row, if the result has a row.
    MaybeId(Option<i64>),
    /// The one text column of a one-row result.
    Text(String),
}

impl Reply {
    /// Whether this reply is of the kind that a query of kind `k` is answered with.
    pub open spec fn answers(&self, k: QueryKind) -> bool {
        match self {
            Reply::Failed(_) => true,
            Reply::Done => k == QueryKind::DeleteUser || k == QueryKind::InsertLoginToken || k
                == QueryKind::InsertAdmin || k == QueryKind::CleanupTokens,
            Reply::Id(_) => k == QueryKind::InsertUser || k == QueryKind::UserByName || k
                == QueryKind::UserByToken,
            Reply::MaybeId(_) => k == QueryKind::AnyUser || k == QueryKind::AdminRow,
            Reply::Text(_) => k == QueryKind::UserName || k == QueryKind::PasswordHash,
        }
    }

    pub fn fits(&self, k: QueryKind) -> (r: bool)
        ensures
            r == self.answers(k),
    {
        match self {
            Reply::Failed(_) => true,
            Reply::Done => k == QueryKind::DeleteUser || k == QueryKind::InsertLoginToken || k
                == QueryKind::InsertAdmin || k == QueryKind::CleanupTokens,
            Reply::Id(_) => k == QueryKind::InsertUser || k == QueryKind::UserByName || k
                == QueryKind::UserByToken,
            Reply::MaybeId(_) => k == QueryKind::AnyUser || k == QueryKind::AdminRow,
            Reply::Text(_) => k == QueryKind::UserName || k == QueryKind::PasswordHash,
        }
    }
}

/// What a flow asks for next, or how it ended.
#[derive(Debug)]
pub enum Next<F, T> {
    /// Run the query, then hand its reply to the flow.
    Ask(F, Query),
    /// Check the request's password against this PHC string, then hand the
    /// outcome to the flow.
    Check(F, String),
    /// The operation is over.
    Finished(Result<T, ApiError>),
}

/// The outcome of a query answered with `Id`, as a user id
/// (`get_user_by_name`, `get_user_by_token`).
pub open spec fn user_id_of(r: Reply) -> Result<UserId, ApiError> {
    match r {
        Reply::Failed(m) => Err(ApiError::Database(m)),
        Reply::Id(i) => Ok(UserId(i)),
        _ => arbitrary(),
    }
}

pub fn user_id_from(r: Reply) -> (o: Result<UserId, ApiError>)
    requires
        r.answers(QueryKind::UserByName),
    ensures
        o == user_id_of(r),
{
    match r {
        Reply::Failed(m) => Err(ApiError::Database(m)),
        Reply::Id(i) => Ok(UserId(i)),
        _ => unreached(),
    }
}

/// The outcome of a query answered with `Text` (`get_user_name`,
/// `get_user_password_hash`).
pub open spec fn text_of(r: Reply) -> Result<String, ApiError> {
    match r {
        Reply::Failed(m) => Err(ApiError::Database(m)),
        Reply::Text(t) => Ok(t),
        _ => arbitrary(),
    }
}

pub fn text_from(r: Reply) -> (o: Result<String, ApiError>)
    requires
        r.answers(QueryKind::UserName),
    ensures
        o == text_of(r),
{
    match r {
        Reply::Failed(m) => Err(ApiError::Database(m)),
        Reply::Text(t) => Ok(t),
        _ => unreached(),
    }
}

/// The outcome of `is_user_admin`: whether the `admins` table has a row for the user.
pub open spec fn is_admin_of(r: Reply) -> Result<bool, ApiError> {
    match r {
        Reply::Failed(m) => Err(ApiError::Database(m)),
        Reply::MaybeId(row) => Ok(row is Some),
        _ => arbitrary(),
    }
}

pub fn is_admin_from(r: Reply) -> (o: Result<bool, ApiError>)
    requires
        r.answers(QueryKind::AdminRow),
    ensures
        o == is_admin_of(r),
{
    match r {
        Reply::Failed(m) => Err(ApiError::Database(m)),
        Reply::MaybeId(row) => Ok(row.is_some()),
        _ => unreached(),
    }
}

/// The outcome of a statement answered with `Done` (`cleanup`).
pub open spec fn done_of(r: Reply) -> Result<(), ApiError> {
    match r {
        Reply::Failed(m) => Err(ApiError::Database(m)),
        _ => Ok(()),
    }
}

pub fn done_from(r: Reply) -> (o: Result<(), ApiError>)
    requires
        r.answers(QueryKind::CleanupTokens),
    ensures
        o == done_of(r),
{
    match r {
        Reply::Failed(m) => Err(ApiError::Database(m)),
        _ => Ok(()),
    }
}

/// `Db::promote_user`: inserts the user into the `admins` table, then reads
/// the user's name (which the server logs).
#[derive(Debug)]
pub enum PromoteUser {
    AwaitInsert { user: UserId },
    AwaitName { user: UserId },
}

impl PromoteUser {
    /// The kind of query whose reply the flow waits for.
    pub open spec fn expects(&self) -> Option<QueryKind> {
        match self {
            PromoteUser::AwaitInsert { .. } => Some(QueryKind::InsertAdmin),
            PromoteUser::AwaitName { .. } => Some(QueryKind::UserName),
        }
    }

    pub open spec fn start_spec(user: UserId) -> Next<PromoteUser, ()> {
        Next::Ask(PromoteUser::AwaitInsert { user }, Query::InsertAdmin(user))
    }

    pub fn start(user: UserId) -> (n: Next<PromoteUser, ()>)
        ensures
            n == Self::start_spec(user),
    {
        Next::Ask(PromoteUser::AwaitInsert { user }, Query::InsertAdmin(user))
    }

    pub open spec fn next_of(self, r: Reply) -> Next<PromoteUser, ()> {
        match r {
            Reply::Failed(m) => Next::Finished(Err(ApiError::Database(m))),
            _ => match self {
                PromoteUser::AwaitInsert { user } => Next::Ask(
                    PromoteUser::AwaitName { user },
                    Query::UserName(user),
                ),
                PromoteUser::AwaitName { .. } => Next::Finished(Ok(())),
            },
        }
    }

    pub fn on_reply(self, r: Reply) -> (n: Next<PromoteUser, ()>)
        requires
            self.expects() matches Some(k) && r.answers(k),
        ensures
            n == self.next_of(r),
    {
        match r {
            Reply::Failed(m) => Next::Finished(Err(ApiError::Database(m))),
            _ => match self {
                PromoteUser::AwaitInsert { user } => Next::Ask(
                    PromoteUser::AwaitName { user },
                    Query::UserName(user),
                ),
                PromoteUser::AwaitName { .. } => Next::Finished(Ok(())),
            },
        }
    }
}

/// `Db::remove_user`: reads the user's name (which the server logs; a missing
/// user fails here), then deletes the user.
#[derive(Debug)]
pub enum RemoveUser {
    AwaitName { user: UserId },
    AwaitDelete { user: UserId },
}

impl RemoveUser {
    pub open spec fn expects(&self) -> Option<QueryKind> {
        match self {
            RemoveUser::AwaitName { .. } => Some(QueryKind::UserName),
            RemoveUser::AwaitDelete { .. } => Some(QueryKind::DeleteUser),
        }
    }

    pub open spec fn start_spec(user: UserId) -> Next<RemoveUser, ()> {
        Next::Ask(RemoveUser::AwaitName { user }, Query::UserName(user))
    }

    pub fn start(user: UserId) -> (n: Next<RemoveUser, ()>)
        ensures
            n == Self::start_spec(user),
    {
        Next::Ask(RemoveUser::AwaitName { user }, Query::UserName(user))
    }

    pub open spec fn next_of(self, r: Reply) -> Next<RemoveUser, ()> {
        match r {
            Reply::Failed(m) => Next::Finished(Err(ApiError::Database(m))),
            _ => match self {
                RemoveUser::AwaitName { user } => Next::Ask(
                    RemoveUser::AwaitDelete { user },
                    Query::DeleteUser(user),
                ),
                RemoveUser::AwaitDelete { .. } => Next::Finished(Ok(())),
            },
        }
    }

    pub fn on_reply(self, r: Reply) -> (n: Next<RemoveUser, ()>)
        requires
            self.expects() matches Some(k) && r.answers(k),
        ensures
            n == self.next_of(r),
    {
        match r {
            Reply::Failed(m) => Next::Finished(Err(ApiError::Database(m))),
            _ => match self {
                RemoveUser::AwaitName { user } => Next::Ask(
                    RemoveUser::AwaitDelete { user },
                    Query::DeleteUser(user),
                ),
                RemoveUser::AwaitDelete { .. } => Next::Finished(Ok(())),
            },
        }
    }
}

/// `Db::add_login_token`: stores (or replaces) the token with its user and
/// expiration, then reads the user's name (which the server logs).
#[derive(Debug)]
pub enum AddLoginToken {
    AwaitInsert { user: UserId },
    AwaitName { user: UserId },
}

impl AddLoginToken {
    pub open spec fn expects(&self) -> Option<QueryKind> {
        match self {
            AddLoginToken::AwaitInsert { .. } => Some(QueryKind::InsertLoginToken),
            AddLoginToken::AwaitName { .. } => Some(QueryKind::UserName),
        }
    }

    pub open spec fn start_spec(user: UserId, token: LoginToken, expiration: Timestamp) -> Next<
        AddLoginToken,
        (),
    > {
        Next::Ask(
            AddLoginToken::AwaitInsert { user },
            Query::InsertLoginToken { user, token, expiration },
        )
    }

    pub fn start(user: UserId, token: LoginToken, expiration: Timestamp) -> (n: Next<
        AddLoginToken,
        (),
    >)
        ensures
            n == Self::start_spec(user, token, expiration),
    {
        Next::Ask(
            AddLoginToken::AwaitInsert { user },
            Query::InsertLoginToken { user, token, expiration },
        )
    }

    pub open spec fn next_of(self, r: Reply) -> Next<AddLoginToken, ()> {
        match r {
            Reply::Failed(m) => Next::Finished(Err(ApiError::Database(m))),
            _ => match self {
                AddLoginToken::AwaitInsert { user } => Next::Ask(
                    AddLoginToken::AwaitName { user },
                    Query::UserName(user),
                ),
                AddLoginToken::AwaitName { .. } => Next::Finished(Ok(())),
            },
        }
    }

    pub fn on_reply(self, r: Reply) -> (n: Next<AddLoginToken, ()>)
        requires
            self.expects() matches Some(k) && r.answers(k),
        ensures
            n == self.next_of(r),
    {
        match r {
            Reply::Failed(m) => Next::Finished(Err(ApiError::Database(m))),
            _ => match self {
                AddLoginToken::AwaitInsert { user } => Next::Ask(
                    AddLoginToken::AwaitName { user },
                    Query::UserName(user),
                ),
                AddLoginToken::AwaitName { .. } => Next::Finished(Ok(())),
            },
        }
    }
}

/// `Db::add_user`: looks whether any user exists, inserts the new user, and
/// promotes the new user to administrator when no user existed before.
#[derive(Debug)]
pub enum AddUser {
    AwaitAnyUser { name: String, password_hash: String },
    AwaitInsert { first: bool },
    AwaitPromotion { user: UserId, promotion: PromoteUser },
}

impl AddUser {
    pub open spec fn expects(&self) -> Option<QueryKind> {
        match self {
            AddUser::AwaitAnyUser { .. } => Some(QueryKind::AnyUser),
            AddUser::AwaitInsert { .. } => Some(QueryKind::InsertUser),
            AddUser::AwaitPromotion { promotion, .. } => promotion.expects(),
        }
    }

    pub open spec fn start_spec(name: String, password_hash: String) -> Next<AddUser, UserId> {
        Next::Ask(AddUser::AwaitAnyUser { name, password_hash }, Query::AnyUser)
    }

    pub fn start(name: String, password_hash: String) -> (n: Next<AddUser, UserId>)
        ensures
            n == Self::start_spec(name, password_hash),
    {
        Next::Ask(AddUser::AwaitAnyUser { name, password_hash }, Query::AnyUser)
    }

    /// Carries a step of the promotion of `user` over to this flow.
    pub open spec fn lift(user: UserId, n: Next<PromoteUser, ()>) -> Next<AddUser, UserId> {
        match n {
            Next::Ask(p, q) => Next::Ask(AddUser::AwaitPromotion { user, promotion: p }, q),
            Next::Check(p, h) => Next::Check(AddUser::AwaitPromotion { user, promotion: p }, h),
            Next::Finished(Ok(())) => Next::Finished(Ok(user)),
            Next::Finished(Err(e)) => Next::Finished(Err(e)),
        }
    }

    fn lift_exec(user: UserId, n: Next<PromoteUser, ()>) -> (r: Next<AddUser, UserId>)
        ensures
            r == Self::lift(user, n),
    {
        match n {
            Next::Ask(p, q) => Next::Ask(AddUser::AwaitPromotion { user, promotion: p }, q),
            Next::Check(p, h) => Next::Check(AddUser::AwaitPromotion { user, promotion: p }, h),
            Next::Finished(Ok(())) => Next::Finished(Ok(user)),
            Next::Finished(Err(e)) => Next::Finished(Err(e)),
        }
    }

    pub open spec fn next_of(self, r: Reply) -> Next<AddUser, UserId> {
        match self {
            AddUser::AwaitAnyUser { name, password_hash } => match r {
                Reply::Failed(m) => Next::Finished(Err(ApiError::Database(m))),
                Reply::MaybeId(row) => Next::Ask(
                    AddUser::AwaitInsert { first: row is None },
                    Query::InsertUser { name, password_hash },
                ),
                _ => arbitrary(),
            },
            AddUser::AwaitInsert { first } => match r {
                Reply::Failed(m) => Next::Finished(Err(ApiError::Database(m))),
                Reply::Id(id) => if first {
                    Self::lift(UserId(id), PromoteUser::start_spec(UserId(id)))
                } else {
                    Next::Finished(Ok(UserId(id)))
                },
                _ => arbitrary(),
            },
            AddUser::AwaitPromotion { user, promotion } => Self::lift(user, promotion.next_of(r)),
        }
    }

    pub fn on_reply(self, r: Reply) -> (n: Next<AddUser, UserId>)
        requires
            self.expects() matches Some(k) && r.answers(k),
        ensures
            n == self.next_of(r),
    {
        match self {
            AddUser::AwaitAnyUser { name, password_hash } => match r {
                Reply::Failed(m) => Next::Finished(Err(ApiError::Database(m))),
                Reply::MaybeId(row) => Next::Ask(
                    AddUser::AwaitInsert { first: row.is_none() },
                    Query::InsertUser { name, password_hash },
                ),
                _ => unreached(),
            },
            AddUser::AwaitInsert { first } => match r {
                Reply::Failed(m) => Next::Finished(Err(ApiError::Database(m))),
                Reply::Id(id) => if first {
                    Self::lift_exec(UserId(id), PromoteUser::start(UserId(id)))
                } else {
                    Next::Finished(Ok(UserId(id)))
                },
                _ => unreached(),
            },
            AddUser::AwaitPromotion { user, promotion } => Self::lift_exec(
                user,
                promotion.on_reply(r),
            ),
        }
    }
}

} // verus!
