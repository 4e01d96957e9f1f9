//! What holds of the operations taken together, over a working store.

use crate::api::{acceptable_account, auth_of, auth_verdict_of, create_user_of, docs_after_push, get_progress_of, pushed_of, users_after_create};
use crate::defs::{error_code, error_status, reply_status, Error, ProgressData, ReplyData};
use crate::fields::{lemma_key_field_is_field, valid_field, valid_key_field};
use crate::store::{Docs, Users};
use vstd::prelude::*;

verus! {

/// A pull that follows a push of the same user and document answers with
/// the record that was pushed: its percentage, cursor, device and device id
/// as they came, and the server time of the push as its timestamp, whatever
/// timestamp the record came with.
pub proof fn lemma_pull_after_push(docs: Docs, user: Seq<char>, record: ProgressData, now: u64)
    requires
        valid_key_field(record.document),
    ensures
        get_progress_of(docs_after_push(docs, user, record, now), user, record.document) == Ok::<
            ReplyData,
            Error,
        >(ReplyData::Progress(record.stamped(now))),
        record.stamped(now).percentage == record.percentage,
        record.stamped(now).progress_cursor == record.progress_cursor,
        record.stamped(now).device == record.device,
        record.stamped(now).device_id == record.device_id,
        record.stamped(now).document == record.document,
        record.stamped(now).timestamp == Some(now),
{
}

/// A push changes the record of its own user and document and no other.
pub proof fn lemma_push_keeps_others(
    docs: Docs,
    user: Seq<char>,
    record: ProgressData,
    now: u64,
    other_user: Seq<char>,
    other_document: Seq<char>,
)
    requires
        other_user != user || other_document != record.document,
    ensures
        docs_after_push(docs, user, record, now).get((other_user, other_document)) == docs.get(
            (other_user, other_document),
        ),
{
}

/// Pushing one record twice, at the server times `first` and then `second`,
/// is answered both times with the document and the time of that push, so
/// the two timestamps are ordered as the two readings of the clock are; and
/// the store ends as if only the second push had been made.
pub proof fn lemma_push_twice(
    docs: Docs,
    user: Seq<char>,
    record: ProgressData,
    first: u64,
    second: u64,
)
    ensures
        pushed_of(record.document, first, Ok(())) == Ok::<ReplyData, Error>(
            ReplyData::Updated { document: record.document, timestamp: first },
        ),
        pushed_of(record.document, second, Ok(())) == Ok::<ReplyData, Error>(
            ReplyData::Updated { document: record.document, timestamp: second },
        ),
        docs_after_push(docs_after_push(docs, user, record, first), user, record, second)
            == docs_after_push(docs, user, record, second),
        docs_after_push(docs_after_push(docs, user, record, first), user, record, second).get(
            (user, record.document),
        ) == Some(record.stamped(second)),
{
    assert(docs_after_push(docs_after_push(docs, user, record, first), user, record, second)
        =~= docs_after_push(docs, user, record, second));
}

/// A caller who names an existing user with a key that is not that user's
/// secret is `Unauthorized`, whenever the store answers the lookup.
pub proof fn lemma_wrong_key_unauthorized(users: Users, user: Seq<char>, key: Seq<char>)
    requires
        users.contains_key(user),
        users[user] != key,
    ensures
        auth_verdict_of(user, key, Ok(Some(users[user]))) == Err::<Seq<char>, Error>(
            Error::Unauthorized,
        ),
        auth_of(users, Some(user), Some(key)) == Err::<Seq<char>, Error>(Error::Unauthorized),
{
}

/// A caller is admitted exactly when both fields are acceptable values, the
/// user exists and the key equals the stored secret; the principal is then
/// the user named.
pub proof fn lemma_auth_admits(users: Users, user: Option<Seq<char>>, key: Option<Seq<char>>)
    ensures
        auth_of(users, user, key) is Ok <==> {
            &&& user matches Some(u)
            &&& key matches Some(k)
            &&& valid_field(u)
            &&& valid_field(k)
            &&& users.contains_key(u)
            &&& users[u] == k
        },
        auth_of(users, user, key) matches Ok(principal) ==> user == Some(principal),
        auth_of(users, user, key) matches Err(e) ==> e == Error::Unauthorized,
{
}

/// Opening an account under a free name succeeds; a second attempt under
/// the same name fails with `UserExists` and changes nothing, whatever
/// secret it brings. Afterwards the first secret authenticates and any
/// other does not.
pub proof fn lemma_duplicate_registration(
    users: Users,
    name: Seq<char>,
    first: Seq<char>,
    second: Seq<char>,
)
    requires
        !users.contains_key(name),
        acceptable_account(name, first),
        acceptable_account(name, second),
    ensures
        create_user_of(users, name, first) == Ok::<ReplyData, Error>(
            ReplyData::Created { username: name },
        ),
        create_user_of(users_after_create(users, name, first), name, second) == Err::<
            ReplyData,
            Error,
        >(Error::UserExists),
        users_after_create(users_after_create(users, name, first), name, second)
            == users_after_create(users, name, first),
        auth_of(users_after_create(users, name, first), Some(name), Some(first)) == Ok::<
            Seq<char>,
            Error,
        >(name),
        second != first ==> auth_of(
            users_after_create(users, name, first),
            Some(name),
            Some(second),
        ) == Err::<Seq<char>, Error>(Error::Unauthorized),
{
    lemma_key_field_is_field(name);
}

/// Opening an account never changes the secret of a user who exists.
pub proof fn lemma_create_keeps_users(
    users: Users,
    name: Seq<char>,
    password: Seq<char>,
    other: Seq<char>,
)
    requires
        users.contains_key(other),
    ensures
        users_after_create(users, name, password).get(other) == users.get(other),
{
}

/// A pull of a document that was never pushed is no failure: it answers
/// with the document alone, and with the status of success.
pub proof fn lemma_pull_before_push(docs: Docs, user: Seq<char>, document: Seq<char>)
    requires
        valid_key_field(document),
        !docs.contains_key((user, document)),
    ensures
        get_progress_of(docs, user, document) == Ok::<ReplyData, Error>(
            ReplyData::NoProgress { document },
        ),
        reply_status(ReplyData::NoProgress { document }) == 200,
{
}

/// Every reply has a status of success and every failure a status of
/// failure.
pub proof fn lemma_status_classes(reply: ReplyData, error: Error)
    ensures
        200 <= reply_status(reply) < 300,
        400 <= error_status(error) < 600,
{
}

/// Two failures with the same code are the same failure.
pub proof fn lemma_codes_distinct(a: Error, b: Error)
    requires
        error_code(a) == error_code(b),
    ensures
        a == b,
{
}

} // verus!
