use vstd::prelude::*;

use crate::api::{CreateUserFlow, DeleteUserFlow, LoginFlow, Minted, PasswordCheck, PromoteUserFlow};
use crate::db::{AddLoginToken, AddUser, Next, PromoteUser, Query, QueryKind, RemoveUser, Reply};
use crate::error::ApiError;
use crate::types::{LoginToken, UserId};

verus! {

/// A failed query ends every operation at once, with the database's message
/// as its error.
pub proof fn law_failure_ends_the_flow(
    add: AddUser,
    promote: PromoteUser,
    remove: RemoveUser,
    store: AddLoginToken,
    create: CreateUserFlow,
    login: LoginFlow,
    delete: DeleteUserFlow,
    promote_request: PromoteUserFlow,
    m: String,
    minted: Option<Minted>,
)
    ensures
        add.next_of(Reply::Failed(m)) == Next::<AddUser, UserId>::Finished(
            Err(ApiError::Database(m)),
        ),
        promote.next_of(Reply::Failed(m)) == Next::<PromoteUser, ()>::Finished(
            Err(ApiError::Database(m)),
        ),
        remove.next_of(Reply::Failed(m)) == Next::<RemoveUser, ()>::Finished(
            Err(ApiError::Database(m)),
        ),
        store.next_of(Reply::Failed(m)) == Next::<AddLoginToken, ()>::Finished(
            Err(ApiError::Database(m)),
        ),
        create.next_of(Reply::Failed(m)) == Next::<CreateUserFlow, ()>::Finished(
            Err(ApiError::Database(m)),
        ),
        login.expects() is Some ==> login.next_of(Reply::Failed(m), minted) == Next::<
            LoginFlow,
            LoginToken,
        >::Finished(Err(ApiError::Database(m))),
        delete.expects() is Some ==> delete.next_of(Reply::Failed(m)) == Next::<
            DeleteUserFlow,
            (),
        >::Finished(Err(ApiError::Database(m))),
        promote_request.next_of(Reply::Failed(m)) == Next::<PromoteUserFlow, ()>::Finished(
            Err(ApiError::Database(m)),
        ),
{
}

/// Every step that asks a query leaves the operation waiting for the reply to
/// exactly that query, and every step that asks for a password check leaves
/// it waiting for no query.
pub proof fn law_flows_wait_for_what_they_ask(
    add: AddUser,
    create: CreateUserFlow,
    login: LoginFlow,
    delete: DeleteUserFlow,
    promote_request: PromoteUserFlow,
    r: Reply,
    minted: Option<Minted>,
)
    ensures
        add.expects() matches Some(k) && r.answers(k) ==> match add.next_of(r) {
            Next::Ask(g, q) => g.expects() == Some(q.kind_of()),
            Next::Check(g, _) => g.expects() is None,
            Next::Finished(_) => true,
        },
        create.expects() matches Some(k) && r.answers(k) ==> match create.next_of(r) {
            Next::Ask(g, q) => g.expects() == Some(q.kind_of()),
            Next::Check(g, _) => g.expects() is None,
            Next::Finished(_) => true,
        },
        login.expects() matches Some(k) && r.answers(k) && (login.mints_on(r) ==> minted is Some)
            ==> match login.next_of(r, minted) {
            Next::Ask(g, q) => g.expects() == Some(q.kind_of()),
            Next::Check(g, _) => g.expects() is None,
            Next::Finished(_) => true,
        },
        delete.expects() matches Some(k) && r.answers(k) ==> match delete.next_of(r) {
            Next::Ask(g, q) => g.expects() == Some(q.kind_of()),
            Next::Check(g, _) => g.expects() is None,
            Next::Finished(_) => true,
        },
        promote_request.expects() matches Some(k) && r.answers(k) ==> match promote_request.next_of(
            r,
        ) {
            Next::Ask(g, q) => g.expects() == Some(q.kind_of()),
            Next::Check(g, _) => g.expects() is None,
            Next::Finished(_) => true,
        },
{
}

/// Adding a user first looks whether any user exists, then inserts the user
/// with the given name and hash; the new user is made an administrator exactly
/// when no user existed, and the operation answers the new user's id.
pub proof fn law_first_user_becomes_admin(
    name: String,
    password_hash: String,
    existing: Option<i64>,
    id: i64,
    name_of_new_user: String,
)
    ensures
        ({
            let s0 = AddUser::AwaitAnyUser { name, password_hash };
            &&& AddUser::start_spec(name, password_hash) == Next::<AddUser, UserId>::Ask(
                s0,
                Query::AnyUser,
            )
            &&& s0.next_of(Reply::MaybeId(existing)) == Next::<AddUser, UserId>::Ask(
                AddUser::AwaitInsert { first: existing is None },
                Query::InsertUser { name, password_hash },
            )
            &&& existing is Some ==> AddUser::AwaitInsert { first: false }.next_of(Reply::Id(id))
                == Next::<AddUser, UserId>::Finished(Ok(UserId(id)))
            &&& existing is None ==> {
                let p0 = PromoteUser::AwaitInsert { user: UserId(id) };
                let p1 = PromoteUser::AwaitName { user: UserId(id) };
                let s1 = AddUser::AwaitPromotion { user: UserId(id), promotion: p0 };
                let s2 = AddUser::AwaitPromotion { user: UserId(id), promotion: p1 };
                &&& AddUser::AwaitInsert { first: true }.next_of(Reply::Id(id)) == Next::<
                    AddUser,
                    UserId,
                >::Ask(s1, Query::InsertAdmin(UserId(id)))
                &&& s1.next_of(Reply::Done) == Next::<AddUser, UserId>::Ask(
                    s2,
                    Query::UserName(UserId(id)),
                )
                &&& s2.next_of(Reply::Text(name_of_new_user)) == Next::<
                    AddUser,
                    UserId,
                >::Finished(Ok(UserId(id)))
            }
        }),
{
}

/// A promotion request inserts an administrator only right after the admin
/// check of the requesting user found a row, and then it promotes exactly the
/// requested target; the admin check is made for the user of the token.
pub proof fn law_only_admins_promote(s: PromoteUserFlow, r: Reply)
    requires
        s.expects() matches Some(k) && r.answers(k),
    ensures
        s.next_of(r) matches Next::Ask(_, Query::InsertAdmin(u)) ==> s == (
        PromoteUserFlow::AwaitAdminCheck { target: u }) && r matches Reply::MaybeId(Some(_)),
        s matches PromoteUserFlow::AwaitAdminCheck { .. } ==> r matches Reply::MaybeId(None)
            ==> s.next_of(r) == Next::<PromoteUserFlow, ()>::Finished(Err(ApiError::NotAdmin)),
        s matches PromoteUserFlow::AwaitRequester { target } ==> r matches Reply::Id(requester)
            ==> s.next_of(r) == Next::<PromoteUserFlow, ()>::Ask(
            PromoteUserFlow::AwaitAdminCheck { target },
            Query::AdminRow(UserId(requester)),
        ),
{
}

/// A user is deleted only after the password was checked and matched: no
/// reply leads into the removal, only a successful password check does, and
/// the user removed is the user whose hash was checked.
pub proof fn law_deletion_needs_the_password(s: DeleteUserFlow, r: Reply, check: PasswordCheck)
    ensures
        s.expects() matches Some(k) && r.answers(k) ==> (s.next_of(r) matches Next::Ask(
            DeleteUserFlow::Removing { .. },
            _,
        ) ==> s is Removing),
        s.expects() matches Some(k) && r.answers(k) ==> (s.next_of(r) matches Next::Ask(
            _,
            Query::DeleteUser(u),
        ) ==> s == DeleteUserFlow::Removing { removal: RemoveUser::AwaitName { user: u } }),
        s matches DeleteUserFlow::AwaitPassword { user } ==> match check {
            Ok(true) => s.password_next(check) == Next::<DeleteUserFlow, ()>::Ask(
                DeleteUserFlow::Removing { removal: RemoveUser::AwaitName { user } },
                Query::UserName(user),
            ),
            Ok(false) => s.password_next(check) == Next::<DeleteUserFlow, ()>::Finished(
                Err(ApiError::WrongPassword),
            ),
            Err(e) => s.password_next(check) == Next::<DeleteUserFlow, ()>::Finished(
                Err(ApiError::PasswordHash(e)),
            ),
        },
        s matches DeleteUserFlow::AwaitHash { user } ==> r matches Reply::Text(h)
            ==> s.next_of(r) == Next::<DeleteUserFlow, ()>::Check(
            DeleteUserFlow::AwaitPassword { user },
            h,
        ),
{
}

/// A login answers a token only when the password matched, and the token it
/// answers is the token that it stored for the user before checking.
pub proof fn law_login_answers_the_stored_token(
    s: LoginFlow,
    r: Reply,
    minted: Option<Minted>,
    check: PasswordCheck,
)
    ensures
        s is AwaitPassword ==> (s.password_next(check) matches Next::Finished(Ok(t)) ==> check
            == Ok::<bool, argon2::password_hash::Error>(true) && s == (LoginFlow::AwaitPassword {
            token: t,
        })),
        s.expects() matches Some(k) && r.answers(k) && (s.mints_on(r) ==> minted is Some) ==> (
        s.next_of(r, minted) matches Next::Check(LoginFlow::AwaitPassword { token }, _) ==> s
            matches LoginFlow::Storing { token: t, store: AddLoginToken::AwaitName { .. }, .. }
            && t == token),
        s matches LoginFlow::AwaitHash { user, .. } ==> r matches Reply::Text(hash) ==> minted
            matches Some((token, expiration)) ==> s.next_of(r, minted) == Next::<
            LoginFlow,
            LoginToken,
        >::Ask(
            LoginFlow::Storing { token, hash, store: AddLoginToken::AwaitInsert { user } },
            Query::InsertLoginToken { user, token, expiration },
        ),
{
}

/// Something that happens to an operation waiting for it: the reply to its
/// query, or the outcome of its password check.
pub enum Event {
    Answer(Reply),
    Checked(PasswordCheck),
}

/// Whether `e` is what the step `n` waits for.
pub open spec fn fits<F, T>(n: Next<F, T>, e: Event) -> bool {
    match n {
        Next::Ask(_, q) => e matches Event::Answer(r) && r.answers(q.kind_of()),
        Next::Check(_, _) => e is Checked,
        Next::Finished(_) => false,
    }
}

/// The steps of a delete-user operation from `n` on, fed `events` in order,
/// up to its end or the first event it does not wait for.
pub open spec fn delete_run(n: Next<DeleteUserFlow, ()>, events: Seq<Event>) -> Seq<
    Next<DeleteUserFlow, ()>,
>
    decreases events.len(),
{
    if events.len() == 0 || !fits(n, events[0]) {
        seq![n]
    } else {
        let after = match (n, events[0]) {
            (Next::Ask(s, _), Event::Answer(r)) => s.next_of(r),
            (Next::Check(s, _), Event::Checked(c)) => s.password_next(c),
            _ => n,
        };
        seq![n] + delete_run(after, events.drop_first())
    }
}

/// The steps of a promote-user operation, as `delete_run`.
pub open spec fn promote_run(n: Next<PromoteUserFlow, ()>, events: Seq<Event>) -> Seq<
    Next<PromoteUserFlow, ()>,
>
    decreases events.len(),
{
    if events.len() == 0 || !fits(n, events[0]) {
        seq![n]
    } else {
        let after = match (n, events[0]) {
            (Next::Ask(s, _), Event::Answer(r)) => s.next_of(r),
            _ => n,
        };
        seq![n] + promote_run(after, events.drop_first())
    }
}

/// The steps of a login, as `delete_run`.
pub open spec fn login_run(n: Next<LoginFlow, LoginToken>, events: Seq<Event>, minted: Minted) -> Seq<
    Next<LoginFlow, LoginToken>,
>
    decreases events.len(),
{
    if events.len() == 0 || !fits(n, events[0]) {
        seq![n]
    } else {
        let after = match (n, events[0]) {
            (Next::Ask(s, _), Event::Answer(r)) => s.next_of(r, Some(minted)),
            (Next::Check(s, _), Event::Checked(c)) => s.password_next(c),
            _ => n,
        };
        seq![n] + login_run(after, events.drop_first(), minted)
    }
}

/// In every run of a delete-user request, the user is deleted only after the
/// token was found to belong to that very user and the password check matched;
/// a check that does not match ends the request with "Wrong password." and
/// deletes nothing.
pub proof fn law_delete_run_needs_the_password(token: LoginToken, events: Seq<Event>, i: int)
    requires
        0 <= i < delete_run(DeleteUserFlow::start_spec(token), events).len(),
    ensures
        delete_run(DeleteUserFlow::start_spec(token), events)[i] matches Next::Ask(
            _,
            Query::DeleteUser(u),
        ) ==> i == 4 && events[0] == Event::Answer(Reply::Id(u.0)) && events[2]
            == Event::Checked(Ok::<bool, argon2::password_hash::Error>(true)),
        (i == 3 && events[2] == Event::Checked(Ok::<bool, argon2::password_hash::Error>(false)))
            ==> delete_run(DeleteUserFlow::start_spec(token), events)[i] == Next::<
            DeleteUserFlow,
            (),
        >::Finished(Err(ApiError::WrongPassword)) && delete_run(
            DeleteUserFlow::start_spec(token),
            events,
        ).len() == 4,
{
    reveal_with_fuel(delete_run, 6);
    if i >= 3 {
        assert(events.drop_first().drop_first()[0] == events[2]);
    }
}

/// In every run of a promote-user request, an administrator is inserted only
/// after the token was found to belong to a user whose admin row exists, and
/// the user inserted is the requested target; a requester without an admin
/// row gets "Must be an admin ..." and nothing is inserted.
pub proof fn law_promote_run_needs_an_admin(
    token: LoginToken,
    target: UserId,
    events: Seq<Event>,
    i: int,
)
    requires
        0 <= i < promote_run(PromoteUserFlow::start_spec(token, target), events).len(),
    ensures
        promote_run(PromoteUserFlow::start_spec(token, target), events)[i] matches Next::Ask(
            _,
            Query::InsertAdmin(u),
        ) ==> i == 2 && u == target && (events[0] matches Event::Answer(Reply::Id(requester))
            && promote_run(PromoteUserFlow::start_spec(token, target), events)[1] == Next::<
            PromoteUserFlow,
            (),
        >::Ask(
            PromoteUserFlow::AwaitAdminCheck { target },
            Query::AdminRow(UserId(requester)),
        )) && (events[1] matches Event::Answer(Reply::MaybeId(Some(_)))),
        (i == 2 && events[1] == Event::Answer(Reply::MaybeId(None))) ==> promote_run(
            PromoteUserFlow::start_spec(token, target),
            events,
        )[i] == Next::<PromoteUserFlow, ()>::Finished(Err(ApiError::NotAdmin)),
{
    reveal_with_fuel(promote_run, 6);
    if i >= 2 {
        assert(events.drop_first()[0] == events[1]);
    }
}

/// In every run of a login, a token is answered only after the password check
/// matched, and it is the very token that was drawn and stored for the user,
/// with its expiration, before the check; a check that does not match answers
/// "Wrong password." (the token stays stored).
pub proof fn law_login_run_answers_the_stored_token(
    username: String,
    remember: bool,
    minted: Minted,
    events: Seq<Event>,
    i: int,
)
    requires
        0 <= i < login_run(LoginFlow::start_spec(username, remember), events, minted).len(),
    ensures
        login_run(LoginFlow::start_spec(username, remember), events, minted)[i] matches Next::Finished(
            Ok(t),
        ) ==> i == 5 && t == minted.0 && events[4] == Event::Checked(
            Ok::<bool, argon2::password_hash::Error>(true),
        ) && (events[0] matches Event::Answer(Reply::Id(user)) && login_run(
            LoginFlow::start_spec(username, remember),
            events,
            minted,
        )[2] == Next::<LoginFlow, LoginToken>::Ask(
            LoginFlow::Storing {
                token: minted.0,
                hash: login_run(LoginFlow::start_spec(username, remember), events, minted)[2]->Ask_0->Storing_hash,
                store: AddLoginToken::AwaitInsert { user: UserId(user) },
            },
            Query::InsertLoginToken { user: UserId(user), token: minted.0, expiration: minted.1 },
        )),
        (i == 5 && events[4] == Event::Checked(Ok::<bool, argon2::password_hash::Error>(false)))
            ==> login_run(LoginFlow::start_spec(username, remember), events, minted)[i] == Next::<
            LoginFlow,
            LoginToken,
        >::Finished(Err(ApiError::WrongPassword)) && (login_run(
            LoginFlow::start_spec(username, remember),
            events,
            minted,
        )[2] matches Next::Ask(_, Query::InsertLoginToken { token: stored, .. }) && stored
            == minted.0),
{
    reveal_with_fuel(login_run, 7);
    let e1 = events.drop_first();
    let e2 = e1.drop_first();
    let e3 = e2.drop_first();
    let e4 = e3.drop_first();
    if i >= 5 {
        assert(e4[0] == events[4]);
    }
}

/// The steps of a create-user request, as `delete_run`.
pub open spec fn create_run(n: Next<CreateUserFlow, ()>, events: Seq<Event>) -> Seq<
    Next<CreateUserFlow, ()>,
>
    decreases events.len(),
{
    if events.len() == 0 || !fits(n, events[0]) {
        seq![n]
    } else {
        let after = match (n, events[0]) {
            (Next::Ask(s, _), Event::Answer(r)) => s.next_of(r),
            _ => n,
        };
        seq![n] + create_run(after, events.drop_first())
    }
}

/// Each statement is answered with what its SQL yields: a statement that
/// fetches exactly one integer, or inserts a user, with `Id`; one that may
/// find a row with `MaybeId`; one that fetches one text with `Text`; one
/// without result with `Done`; and every statement may fail. No other
/// reply answers it.
pub proof fn law_replies_match_their_statements(i: i64, row: Option<i64>, t: String, m: String, k: QueryKind)
    ensures
        Reply::Id(i).answers(QueryKind::InsertUser),
        Reply::Id(i).answers(QueryKind::UserByName),
        Reply::Id(i).answers(QueryKind::UserByToken),
        Reply::MaybeId(row).answers(QueryKind::AnyUser),
        Reply::MaybeId(row).answers(QueryKind::AdminRow),
        Reply::Text(t).answers(QueryKind::UserName),
        Reply::Text(t).answers(QueryKind::PasswordHash),
        Reply::Done.answers(QueryKind::DeleteUser),
        Reply::Done.answers(QueryKind::InsertLoginToken),
        Reply::Done.answers(QueryKind::InsertAdmin),
        Reply::Done.answers(QueryKind::CleanupTokens),
        Reply::Failed(m).answers(k),
        Reply::Id(i).answers(k) ==> k == QueryKind::InsertUser || k == QueryKind::UserByName
            || k == QueryKind::UserByToken,
        Reply::MaybeId(row).answers(k) ==> k == QueryKind::AnyUser || k == QueryKind::AdminRow,
        Reply::Text(t).answers(k) ==> k == QueryKind::UserName || k == QueryKind::PasswordHash,
        Reply::Done.answers(k) ==> k == QueryKind::DeleteUser || k == QueryKind::InsertLoginToken
            || k == QueryKind::InsertAdmin || k == QueryKind::CleanupTokens,
{
}

/// A login keeps its "remember me" flag: after the user is found, the login
/// waits for that user's password hash with the flag it was started with, so
/// the token it then draws expires after the long lifetime exactly when
/// "remember me" was asked for.
pub proof fn law_login_keeps_remember(username: String, remember: bool, id: i64)
    ensures
        LoginFlow::start_spec(username, remember) matches Next::Ask(s0, q0) && q0 == Query::UserByName(
            username,
        ) && s0.next_of(Reply::Id(id), None) == Next::<LoginFlow, LoginToken>::Ask(
            LoginFlow::AwaitHash { user: UserId(id), remember },
            Query::PasswordHash(UserId(id)),
        ),
{
}

/// A login that finds the user, reads the hash, stores the token and finds
/// the password right takes exactly six steps and answers the drawn token;
/// the token stored is the drawn one, for the found user, with the drawn
/// expiration.
pub proof fn law_login_run_succeeds(
    username: String,
    remember: bool,
    minted: Minted,
    id: i64,
    hash: String,
    name: String,
)
    ensures
        ({
            let events = seq![
                Event::Answer(Reply::Id(id)),
                Event::Answer(Reply::Text(hash)),
                Event::Answer(Reply::Done),
                Event::Answer(Reply::Text(name)),
                Event::Checked(Ok(true)),
            ];
            let run = login_run(LoginFlow::start_spec(username, remember), events, minted);
            &&& run.len() == 6
            &&& run[5] == Next::<LoginFlow, LoginToken>::Finished(Ok(minted.0))
            &&& run[2] matches Next::Ask(_, Query::InsertLoginToken { user, token, expiration })
            &&& run[2]->Ask_1 == Query::InsertLoginToken {
                user: UserId(id),
                token: minted.0,
                expiration: minted.1,
            }
            &&& run[4] matches Next::Check(_, h)
            &&& run[4]->Check_1 == hash
        }),
{
    reveal_with_fuel(login_run, 7);
    let events = seq![
        Event::Answer(Reply::Id(id)),
        Event::Answer(Reply::Text(hash)),
        Event::Answer(Reply::Done),
        Event::Answer(Reply::Text(name)),
        Event::Checked(Ok::<bool, argon2::password_hash::Error>(true)),
    ];
    assert(events.drop_first() =~= seq![
        Event::Answer(Reply::Text(hash)),
        Event::Answer(Reply::Done),
        Event::Answer(Reply::Text(name)),
        Event::Checked(Ok::<bool, argon2::password_hash::Error>(true)),
    ]);
    assert(events.drop_first().drop_first() =~= seq![
        Event::Answer(Reply::Done),
        Event::Answer(Reply::Text(name)),
        Event::Checked(Ok::<bool, argon2::password_hash::Error>(true)),
    ]);
    assert(events.drop_first().drop_first().drop_first() =~= seq![
        Event::Answer(Reply::Text(name)),
        Event::Checked(Ok::<bool, argon2::password_hash::Error>(true)),
    ]);
    assert(events.drop_first().drop_first().drop_first().drop_first() =~= seq![
        Event::Checked(Ok::<bool, argon2::password_hash::Error>(true)),
    ]);
    assert(events.drop_first().drop_first().drop_first().drop_first().drop_first() =~= Seq::<
        Event,
    >::empty());
}

/// Creating the first user: after the hash was made, the request looks for
/// any user, inserts the new one, and, since none existed, makes it an
/// administrator and reads its name before it succeeds; a later user is
/// inserted and the request succeeds at once, with no administrator added.
pub proof fn law_create_run_promotes_the_first_user(
    name: String,
    hash: String,
    id: i64,
    other: i64,
    name_back: String,
)
    ensures
        ({
            let first = seq![
                Event::Answer(Reply::MaybeId(None)),
                Event::Answer(Reply::Id(id)),
                Event::Answer(Reply::Done),
                Event::Answer(Reply::Text(name_back)),
            ];
            let run = create_run(CreateUserFlow::start_spec(name, Ok(hash)), first);
            &&& run.len() == 5
            &&& run[0]->Ask_1 == Query::AnyUser
            &&& run[1]->Ask_1 == Query::InsertUser { name, password_hash: hash }
            &&& run[2] is Ask && run[2]->Ask_1 == Query::InsertAdmin(UserId(id))
            &&& run[3] is Ask && run[3]->Ask_1 == Query::UserName(UserId(id))
            &&& run[4] == Next::<CreateUserFlow, ()>::Finished(Ok(()))
        }),
        ({
            let later = seq![Event::Answer(Reply::MaybeId(Some(other))), Event::Answer(Reply::Id(id))];
            let run = create_run(CreateUserFlow::start_spec(name, Ok(hash)), later);
            &&& run.len() == 3
            &&& run[1]->Ask_1 == Query::InsertUser { name, password_hash: hash }
            &&& run[2] == Next::<CreateUserFlow, ()>::Finished(Ok(()))
        }),
{
    reveal_with_fuel(create_run, 6);
    let first = seq![
        Event::Answer(Reply::MaybeId(None)),
        Event::Answer(Reply::Id(id)),
        Event::Answer(Reply::Done),
        Event::Answer(Reply::Text(name_back)),
    ];
    assert(first.drop_first() =~= seq![
        Event::Answer(Reply::Id(id)),
        Event::Answer(Reply::Done),
        Event::Answer(Reply::Text(name_back)),
    ]);
    assert(first.drop_first().drop_first() =~= seq![
        Event::Answer(Reply::Done),
        Event::Answer(Reply::Text(name_back)),
    ]);
    assert(first.drop_first().drop_first().drop_first() =~= seq![
        Event::Answer(Reply::Text(name_back)),
    ]);
    assert(first.drop_first().drop_first().drop_first().drop_first() =~= Seq::<Event>::empty());
    let later = seq![Event::Answer(Reply::MaybeId(Some(other))), Event::Answer(Reply::Id(id))];
    assert(later.drop_first() =~= seq![Event::Answer(Reply::Id(id))]);
    assert(later.drop_first().drop_first() =~= Seq::<Event>::empty());
}

/// A create-user request whose password could not be hashed asks the
/// database nothing and ends with that hashing error.
pub proof fn law_create_stops_when_hashing_fails(name: String, e: argon2::password_hash::Error)
    ensures
        CreateUserFlow::start_spec(name, Err(e)) == Next::<CreateUserFlow, ()>::Finished(
            Err(ApiError::PasswordHash(e)),
        ),
{
}

/// A delete-user request whose token belongs to a user, with the right
/// password, reads the user's hash, checks it, reads the name, deletes that
/// user and succeeds: six steps.
pub proof fn law_delete_run_succeeds(token: LoginToken, id: i64, hash: String, name: String)
    ensures
        ({
            let events = seq![
                Event::Answer(Reply::Id(id)),
                Event::Answer(Reply::Text(hash)),
                Event::Checked(Ok(true)),
                Event::Answer(Reply::Text(name)),
                Event::Answer(Reply::Done),
            ];
            let run = delete_run(DeleteUserFlow::start_spec(token), events);
            &&& run.len() == 6
            &&& run[0]->Ask_1 == Query::UserByToken(token)
            &&& run[1] is Ask && run[1]->Ask_1 == Query::PasswordHash(UserId(id))
            &&& run[2] is Check && run[2]->Check_1 == hash
            &&& run[4] is Ask && run[4]->Ask_1 == Query::DeleteUser(UserId(id))
            &&& run[5] == Next::<DeleteUserFlow, ()>::Finished(Ok(()))
        }),
{
    reveal_with_fuel(delete_run, 7);
    let events = seq![
        Event::Answer(Reply::Id(id)),
        Event::Answer(Reply::Text(hash)),
        Event::Checked(Ok::<bool, argon2::password_hash::Error>(true)),
        Event::Answer(Reply::Text(name)),
        Event::Answer(Reply::Done),
    ];
    assert(events.drop_first() =~= seq![
        Event::Answer(Reply::Text(hash)),
        Event::Checked(Ok::<bool, argon2::password_hash::Error>(true)),
        Event::Answer(Reply::Text(name)),
        Event::Answer(Reply::Done),
    ]);
    assert(events.drop_first().drop_first() =~= seq![
        Event::Checked(Ok::<bool, argon2::password_hash::Error>(true)),
        Event::Answer(Reply::Text(name)),
        Event::Answer(Reply::Done),
    ]);
    assert(events.drop_first().drop_first().drop_first() =~= seq![
        Event::Answer(Reply::Text(name)),
        Event::Answer(Reply::Done),
    ]);
    assert(events.drop_first().drop_first().drop_first().drop_first() =~= seq![
        Event::Answer(Reply::Done),
    ]);
    assert(events.drop_first().drop_first().drop_first().drop_first().drop_first() =~= Seq::<
        Event,
    >::empty());
}

/// A promote-user request by an administrator checks the requester's admin
/// row, inserts the target into the administrators, reads its name and
/// succeeds: five steps.
pub proof fn law_promote_run_succeeds(
    token: LoginToken,
    target: UserId,
    requester: i64,
    row: i64,
    name: String,
)
    ensures
        ({
            let events = seq![
                Event::Answer(Reply::Id(requester)),
                Event::Answer(Reply::MaybeId(Some(row))),
                Event::Answer(Reply::Done),
                Event::Answer(Reply::Text(name)),
            ];
            let run = promote_run(PromoteUserFlow::start_spec(token, target), events);
            &&& run.len() == 5
            &&& run[0]->Ask_1 == Query::UserByToken(token)
            &&& run[1] is Ask && run[1]->Ask_1 == Query::AdminRow(UserId(requester))
            &&& run[2] is Ask && run[2]->Ask_1 == Query::InsertAdmin(target)
            &&& run[3] is Ask && run[3]->Ask_1 == Query::UserName(target)
            &&& run[4] == Next::<PromoteUserFlow, ()>::Finished(Ok(()))
        }),
{
    reveal_with_fuel(promote_run, 6);
    let events = seq![
        Event::Answer(Reply::Id(requester)),
        Event::Answer(Reply::MaybeId(Some(row))),
        Event::Answer(Reply::Done),
        Event::Answer(Reply::Text(name)),
    ];
    assert(events.drop_first() =~= seq![
        Event::Answer(Reply::MaybeId(Some(row))),
        Event::Answer(Reply::Done),
        Event::Answer(Reply::Text(name)),
    ]);
    assert(events.drop_first().drop_first() =~= seq![
        Event::Answer(Reply::Done),
        Event::Answer(Reply::Text(name)),
    ]);
    assert(events.drop_first().drop_first().drop_first() =~= seq![
        Event::Answer(Reply::Text(name)),
    ]);
    assert(events.drop_first().drop_first().drop_first().drop_first() =~= Seq::<Event>::empty());
}

} // verus!
