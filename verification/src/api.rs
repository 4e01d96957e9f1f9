//! The operations of the service: the authentication of a request and the
//! handlers behind it.

use crate::clock::now_timestamp;
use crate::defs::{outcome_view, Authed, CreateUser, Error, Fault, ProgressData, ProgressState, Reply, ReplyData};
use crate::fields::{is_valid_field, is_valid_key_field, valid_field, valid_key_field};
use crate::headers::{header_str, header_text, opt_text};
use crate::store::{opt_state_view, opt_string_view, Docs, Store, Users};
use crate::text::same_text;
use axum::http::{HeaderMap, HeaderValue};
use vstd::prelude::*;

verus! {

// ------------------------------------------------------ authentication

/// A header field as a credential: its text where that is an acceptable
/// value, nothing otherwise.
pub open spec fn credential_of(text: Option<Seq<char>>) -> Option<Seq<char>> {
    match text {
        Some(t) => if valid_field(t) {
            Some(t)
        } else {
            None
        },
        None => None,
    }
}

/// What authentication decides once the store has answered the lookup of
/// `user`:
/// the principal where the stored secret equals `key`, `Unauthorized` where
/// there is no such user or the secret differs, `Internal` where the lookup
/// failed.
pub open spec fn auth_verdict_of(
    user: Seq<char>,
    key: Seq<char>,
    lookup: Result<Option<Seq<char>>, Fault>,
) -> Result<Seq<char>, Error> {
    match lookup {
        Ok(Some(secret)) => if secret == key {
            Ok(user)
        } else {
            Err(Error::Unauthorized)
        },
        Ok(None) => Err(Error::Unauthorized),
        Err(_) => Err(Error::Internal),
    }
}

/// What authentication decides over a working store.
pub open spec fn auth_of(users: Users, user: Option<Seq<char>>, key: Option<Seq<char>>) -> Result<
    Seq<char>,
    Error,
> {
    match (credential_of(user), credential_of(key)) {
        (Some(u), Some(k)) => auth_verdict_of(u, k, Ok(users.get(u))),
        _ => Err(Error::Unauthorized),
    }
}

/// The view of a lookup in the user registry.
pub open spec fn user_lookup_view(lookup: Result<Option<String>, Fault>) -> Result<
    Option<Seq<char>>,
    Fault,
> {
    match lookup {
        Ok(found) => Ok(opt_string_view(found)),
        Err(f) => Err(f),
    }
}

/// The view of what authentication decided.
pub open spec fn authed_view(r: Result<Authed, Error>) -> Result<Seq<char>, Error> {
    match r {
        Ok(a) => Ok(a.0@),
        Err(e) => Err(e),
    }
}

/// Keeps a header field that is an acceptable value and drops any other.
pub fn accept_credential<'a>(text: Option<&'a str>) -> (r: Option<&'a str>)
    ensures
        opt_text(r) == credential_of(opt_text(text)),
{
    match text {
        Some(t) => if is_valid_field(t) {
            Some(t)
        } else {
            None
        },
        None => None,
    }
}

/// Reads the header `name` as a credential.
pub fn credential<'a>(headers: &'a HeaderMap<HeaderValue>, name: &str) -> (r: Option<&'a str>)
    ensures
        opt_text(r) == credential_of(header_text(*headers, name@)),
{
    accept_credential(header_str(headers, name))
}

/// Decides on a request whose credentials are `user` and `key`, given what
/// the store answered when asked for the secret of `user`.
pub fn auth_verdict(user: &str, key: &str, lookup: Result<Option<String>, Fault>) -> (r: Result<
    Authed,
    Error,
>)
    ensures
        authed_view(r) == auth_verdict_of(user@, key@, user_lookup_view(lookup)),
{
    match lookup {
        Ok(Some(secret)) => if same_text(secret.as_str(), key) {
            Ok(Authed(user.to_owned()))
        } else {
            Err(Error::Unauthorized)
        },
        Ok(None) => Err(Error::Unauthorized),
        Err(_) => Err(Error::Internal),
    }
}

/// Authentication on plain values: admits the caller whose two header
/// fields are acceptable and match a stored user, and rejects every other.
///
/// Unacceptable or missing fields are rejected as `Unauthorized` without
/// consulting the store. `Internal` is returned only when the lookup fails,
/// which a working store never does.
pub fn authenticate<S: Store>(store: &S, user: Option<&str>, key: Option<&str>) -> (r: Result<
    Authed,
    Error,
>)
    ensures
        r != Err::<Authed, Error>(Error::Internal) ==> authed_view(r) == auth_of(
            store.users(),
            opt_text(user),
            opt_text(key),
        ),
        r == Err::<Authed, Error>(Error::Internal) ==> {
            &&& !store.reliable()
            &&& credential_of(opt_text(user)) is Some
            &&& credential_of(opt_text(key)) is Some
        },
{
    match (accept_credential(user), accept_credential(key)) {
        (Some(u), Some(k)) => auth_verdict(u, k, store.get_user(u)),
        _ => Err(Error::Unauthorized),
    }
}

/// Authenticates a request: decides from its `x-auth-user` and
/// `x-auth-key` headers whether to admit it, and as whom.
pub fn auth<S: Store>(store: &S, headers: &HeaderMap<HeaderValue>) -> (r: Result<Authed, Error>)
    ensures
        r != Err::<Authed, Error>(Error::Internal) ==> authed_view(r) == auth_of(
            store.users(),
            header_text(*headers, "x-auth-user"@),
            header_text(*headers, "x-auth-key"@),
        ),
        r == Err::<Authed, Error>(Error::Internal) ==> {
            &&& !store.reliable()
            &&& credential_of(header_text(*headers, "x-auth-user"@)) is Some
            &&& credential_of(header_text(*headers, "x-auth-key"@)) is Some
        },
{
    authenticate(store, header_str(headers, "x-auth-user"), header_str(headers, "x-auth-key"))
}

/// Acknowledges an authenticated caller.
pub fn auth_user(user: &Authed) -> (r: Reply)
    ensures
        r@ == ReplyData::Authorized,
{
    Reply::Authorized
}

// ------------------------------------------------------------ accounts

/// Whether an account may be opened with these fields: the name must be an
/// acceptable key and the secret an acceptable value.
pub open spec fn acceptable_account(username: Seq<char>, password: Seq<char>) -> bool {
    valid_key_field(username) && valid_field(password)
}

/// What opening an account answers over a working store.
pub open spec fn create_user_of(users: Users, username: Seq<char>, password: Seq<char>) -> Result<
    ReplyData,
    Error,
> {
    if !acceptable_account(username, password) {
        Err(Error::InvalidRequest)
    } else if users.contains_key(username) {
        Err(Error::UserExists)
    } else {
        Ok(ReplyData::Created { username })
    }
}

/// The user registry after an attempt to open an account over a working
/// store: the new user is added where the attempt succeeds, and nothing
/// changes where it does not.
pub open spec fn users_after_create(users: Users, username: Seq<char>, password: Seq<char>) -> Users {
    if create_user_of(users, username, password) is Ok {
        users.insert(username, password)
    } else {
        users
    }
}

/// What the lookup of a name means for opening an account under it: the
/// name is free, taken, or the store failed.
pub open spec fn vacancy_of(lookup: Result<Option<Seq<char>>, Fault>) -> Result<(), Error> {
    match lookup {
        Ok(None) => Ok(()),
        Ok(Some(_)) => Err(Error::UserExists),
        Err(_) => Err(Error::Internal),
    }
}

/// What storing a new account under `username` answers.
pub open spec fn created_of(username: Seq<char>, stored: Result<(), Fault>) -> Result<
    ReplyData,
    Error,
> {
    match stored {
        Ok(_) => Ok(ReplyData::Created { username }),
        Err(_) => Err(Error::Internal),
    }
}

/// Checks the fields of an account request.
pub fn check_account(data: &CreateUser) -> (r: Result<(), Error>)
    ensures
        r == if acceptable_account(data.username@, data.password@) {
            Ok::<(), Error>(())
        } else {
            Err::<(), Error>(Error::InvalidRequest)
        },
{
    if !is_valid_key_field(data.username.as_str()) || !is_valid_field(data.password.as_str()) {
        Err(Error::InvalidRequest)
    } else {
        Ok(())
    }
}

/// Decides from the lookup of a name whether an account may be opened under
/// it.
pub fn vacancy(lookup: Result<Option<String>, Fault>) -> (r: Result<(), Error>)
    ensures
        r == vacancy_of(user_lookup_view(lookup)),
{
    match lookup {
        Ok(None) => Ok(()),
        Ok(Some(_)) => Err(Error::UserExists),
        Err(_) => Err(Error::Internal),
    }
}

/// Answers the storing of a new account.
pub fn created(username: &str, stored: Result<(), Fault>) -> (r: Result<Reply, Error>)
    ensures
        outcome_view(r) == created_of(username@, stored),
{
    match stored {
        Ok(_) => Ok(Reply::Created { username: username.to_owned() }),
        Err(_) => Err(Error::Internal),
    }
}

/// Opens an account.
///
/// Unacceptable fields are rejected as `InvalidRequest` and a taken name as
/// `UserExists`; in neither case, nor when the store fails, does the user
/// registry change. `Internal` is returned only when the store fails.
pub fn create_user<S: Store>(store: &mut S, data: &CreateUser) -> (r: Result<Reply, Error>)
    ensures
        final(store).docs() == old(store).docs(),
        final(store).reliable() == old(store).reliable(),
        r != Err::<Reply, Error>(Error::Internal) ==> {
            &&& outcome_view(r) == create_user_of(old(store).users(), data.username@, data.password@)
            &&& final(store).users() == users_after_create(
                old(store).users(),
                data.username@,
                data.password@,
            )
        },
        r == Err::<Reply, Error>(Error::Internal) ==> {
            &&& !old(store).reliable()
            &&& acceptable_account(data.username@, data.password@)
            &&& final(store).users() == old(store).users()
        },
{
    match check_account(data) {
        Err(e) => {
            return Err(e);
        },
        Ok(_) => {},
    }
    match vacancy(store.get_user(data.username.as_str())) {
        Err(e) => {
            return Err(e);
        },
        Ok(_) => {},
    }
    let stored = store.put_user(data.username.as_str(), data.password.as_str());
    created(data.username.as_str(), stored)
}

// ------------------------------------------------------------ progress

/// The view of a lookup in the registry of reading positions.
pub open spec fn doc_lookup_view(lookup: Result<Option<ProgressState>, Fault>) -> Result<
    Option<ProgressData>,
    Fault,
> {
    match lookup {
        Ok(found) => Ok(opt_state_view(found)),
        Err(f) => Err(f),
    }
}

/// What a pull of `document` answers, given what the store answered: the
/// stored record, the bare document where nothing is stored yet, and
/// `Internal` where the lookup failed.
pub open spec fn pulled_of(document: Seq<char>, lookup: Result<Option<ProgressData>, Fault>) -> Result<
    ReplyData,
    Error,
> {
    match lookup {
        Ok(Some(record)) => Ok(ReplyData::Progress(record)),
        Ok(None) => Ok(ReplyData::NoProgress { document }),
        Err(_) => Err(Error::Internal),
    }
}

/// What a pull answers over a working store.
pub open spec fn get_progress_of(docs: Docs, user: Seq<char>, document: Seq<char>) -> Result<
    ReplyData,
    Error,
> {
    if !valid_key_field(document) {
        Err(Error::DocumentFieldMissing)
    } else {
        pulled_of(document, Ok(docs.get((user, document))))
    }
}

/// The registry of reading positions after `user` pushed `record` at the
/// server time `now`: the record, stamped with `now`, replaces whatever was
/// stored for that user and document.
pub open spec fn docs_after_push(docs: Docs, user: Seq<char>, record: ProgressData, now: u64) -> Docs {
    docs.insert((user, record.document), record.stamped(now))
}

/// What storing a push of `document` at the server time `now` answers.
pub open spec fn pushed_of(document: Seq<char>, now: u64, stored: Result<(), Fault>) -> Result<
    ReplyData,
    Error,
> {
    match stored {
        Ok(_) => Ok(ReplyData::Updated { document, timestamp: now }),
        Err(_) => Err(Error::Internal),
    }
}

/// Answers a pull of `document`, given what the store answered.
pub fn pulled(document: &str, lookup: Result<Option<ProgressState>, Fault>) -> (r: Result<
    Reply,
    Error,
>)
    ensures
        outcome_view(r) == pulled_of(document@, doc_lookup_view(lookup)),
{
    match lookup {
        Ok(Some(record)) => Ok(Reply::Progress(record)),
        Ok(None) => Ok(Reply::NoProgress { document: document.to_owned() }),
        Err(_) => Err(Error::Internal),
    }
}

/// Answers the storing of a push of `document` at the server time `now`.
pub fn pushed(document: &str, now: u64, stored: Result<(), Fault>) -> (r: Result<Reply, Error>)
    ensures
        outcome_view(r) == pushed_of(document@, now, stored),
{
    match stored {
        Ok(_) => Ok(Reply::Updated { document: document.to_owned(), timestamp: now }),
        Err(_) => Err(Error::Internal),
    }
}

/// Pulls the reading position that `user` has in `doc`.
///
/// A document that is no acceptable key is rejected as
/// `DocumentFieldMissing`. A document with nothing stored is no failure: the
/// answer then holds the document alone. `Internal` is returned only when
/// the store fails.
pub fn get_progress<S: Store>(store: &S, user: &Authed, doc: &str) -> (r: Result<Reply, Error>)
    ensures
        r != Err::<Reply, Error>(Error::Internal) ==> outcome_view(r) == get_progress_of(
            store.docs(),
            user.0@,
            doc@,
        ),
        r == Err::<Reply, Error>(Error::Internal) ==> !store.reliable() && valid_key_field(doc@),
{
    if !is_valid_key_field(doc) {
        return Err(Error::DocumentFieldMissing);
    }
    pulled(doc, store.get_doc(user.0.as_str(), doc))
}

/// Pushes the reading position `data` for `user` at the server time `now`.
///
/// Whatever timestamp `data` came with is discarded: the record is stored
/// with `now`, in place of any record stored before for that user and
/// document, and the answer names the document and `now`. The only failure
/// is `Internal`, when the store fails; nothing is stored then.
pub fn update_progress_at<S: Store>(
    store: &mut S,
    user: &Authed,
    data: ProgressState,
    now: u64,
) -> (r: Result<Reply, Error>)
    ensures
        final(store).users() == old(store).users(),
        final(store).reliable() == old(store).reliable(),
        old(store).reliable() ==> r is Ok,
        r is Ok ==> {
            &&& outcome_view(r) == pushed_of(data.document@, now, Ok(()))
            &&& final(store).docs() == docs_after_push(old(store).docs(), user.0@, data@, now)
        },
        r is Err ==> {
            &&& r == Err::<Reply, Error>(Error::Internal)
            &&& final(store).docs() == old(store).docs()
        },
{
    let mut data = data;
    data.timestamp = Some(now);
    let stored = store.put_doc(user.0.as_str(), data.document.as_str(), &data);
    pushed(data.document.as_str(), now, stored)
}

/// Pushes the reading position `data` for `user` at the current server
/// time.
///
/// The server reads its clock once. The answer names the document and that
/// reading, and the record is stored with that reading as its timestamp, in
/// place of whatever timestamp it came with and of any record stored before
/// for that user and document. The only failure is `Internal`, when the
/// store fails; nothing is stored then.
pub fn update_progress<S: Store>(store: &mut S, user: &Authed, data: ProgressState) -> (r: Result<
    Reply,
    Error,
>)
    ensures
        final(store).users() == old(store).users(),
        final(store).reliable() == old(store).reliable(),
        old(store).reliable() ==> r is Ok,
        r matches Ok(reply) ==> {
            &&& reply@ matches ReplyData::Updated { document, timestamp }
            &&& document == data.document@
            &&& final(store).docs() == docs_after_push(
                old(store).docs(),
                user.0@,
                data@,
                timestamp,
            )
        },
        r is Err ==> {
            &&& r == Err::<Reply, Error>(Error::Internal)
            &&& final(store).docs() == old(store).docs()
        },
{
    let now = now_timestamp();
    update_progress_at(store, user, data, now)
}

// --------------------------------------------------------------- static

/// Answers a liveness probe from an authenticated caller.
pub fn healthcheck(user: &Authed) -> (r: Reply)
    ensures
        r@ == ReplyData::Healthy,
{
    Reply::Healthy
}

/// The crawler policy: every path is off limits to every crawler.
pub fn robots() -> (r: &'static str)
    ensures
        r@ == "User-agent: *\nDisallow: /\n"@,
{
    "User-agent: *\nDisallow: /\n"
}

} // verus!
