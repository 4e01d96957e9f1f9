//! The store that the handlers read and write: a registry of users and a
//! registry of reading positions, one per user and document.

use crate::defs::{Fault, ProgressData, ProgressState};
use vstd::prelude::*;

verus! {

/// The registry of users: each name with its secret.
pub type Users = Map<Seq<char>, Seq<char>>;

/// The registry of reading positions, keyed by user name and document.
pub type Docs = Map<(Seq<char>, Seq<char>), ProgressData>;

/// The view of an optional string.
pub open spec fn opt_string_view(s: Option<String>) -> Option<Seq<char>> {
    match s {
        Some(t) => Some(t@),
        None => None,
    }
}

/// The view of an optional record.
pub open spec fn opt_state_view(s: Option<ProgressState>) -> Option<ProgressData> {
    match s {
        Some(t) => Some(t@),
        None => None,
    }
}

/// A store of users and reading positions.
///
/// Every operation is atomic: it either completes, or fails with a `Fault`
/// and leaves both registries as they were. A lookup that completes tells
/// what the registry holds; a write that completes replaces the whole entry
/// under its key and touches no other.
pub trait Store {
    /// The users that the store holds.
    spec fn users(&self) -> Users;

    /// The reading positions that the store holds.
    spec fn docs(&self) -> Docs;

    /// Whether the store is in working order: while it is, no operation
    /// fails.
    spec fn reliable(&self) -> bool;

    /// Looks up the secret of `username`.
    fn get_user(&self, username: &str) -> (r: Result<Option<String>, Fault>)
        ensures
            self.reliable() ==> r is Ok,
            r matches Ok(found) ==> opt_string_view(found) == self.users().get(username@),
    ;

    /// Stores `secret` as the secret of `username`.
    fn put_user(&mut self, username: &str, secret: &str) -> (r: Result<(), Fault>)
        ensures
            old(self).reliable() ==> r is Ok,
            final(self).reliable() == old(self).reliable(),
            final(self).docs() == old(self).docs(),
            r is Ok ==> final(self).users() == old(self).users().insert(username@, secret@),
            r is Err ==> final(self).users() == old(self).users(),
    ;

    /// Looks up the reading position that `username` has in `document`.
    fn get_doc(&self, username: &str, document: &str) -> (r: Result<Option<ProgressState>, Fault>)
        ensures
            self.reliable() ==> r is Ok,
            r matches Ok(found) ==> opt_state_view(found) == self.docs().get((username@, document@)),
    ;

    /// Stores `record` as the reading position that `username` has in
    /// `document`.
    fn put_doc(&mut self, username: &str, document: &str, record: &ProgressState) -> (r: Result<
        (),
        Fault,
    >)
        ensures
            old(self).reliable() ==> r is Ok,
            final(self).reliable() == old(self).reliable(),
            final(self).users() == old(self).users(),
            r is Ok ==> final(self).docs() == old(self).docs().insert(
                (username@, document@),
                record@,
            ),
            r is Err ==> final(self).docs() == old(self).docs(),
    ;
}

} // verus!
