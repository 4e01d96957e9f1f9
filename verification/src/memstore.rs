//! A store held in memory, for tests and for servers that need no
//! persistence.

use crate::defs::{Fault, ProgressData, ProgressState};
use crate::store::{opt_state_view, opt_string_view, Docs, Store, Users};
use crate::table::{distinct_keys, lemma_table_absent, lemma_table_found, lemma_table_push, lemma_table_update, table_of};
use crate::text::same_text;
use vstd::prelude::*;

verus! {

struct UserEntry {
    name: String,
    secret: String,
}

struct DocEntry {
    user: String,
    document: String,
    record: ProgressState,
}

spec fn user_pairs(v: Seq<UserEntry>) -> Seq<(Seq<char>, Seq<char>)> {
    Seq::new(v.len(), |i: int| (v[i].name@, v[i].secret@))
}

spec fn doc_pairs(v: Seq<DocEntry>) -> Seq<((Seq<char>, Seq<char>), ProgressData)> {
    Seq::new(v.len(), |i: int| ((v[i].user@, v[i].document@), v[i].record@))
}

/// A store that keeps its two registries in memory.
///
/// It can be switched off, and then fails every operation with a `Fault`
/// until it is switched on again; what it holds is kept meanwhile.
pub struct MemStore {
    users: Vec<UserEntry>,
    docs: Vec<DocEntry>,
    online: bool,
}

impl MemStore {
    #[verifier::type_invariant]
    spec fn wf(&self) -> bool {
        &&& distinct_keys(user_pairs(self.users@))
        &&& distinct_keys(doc_pairs(self.docs@))
    }

    /// An empty store in working order.
    pub fn new() -> (s: Self)
        ensures
            s.users() == Map::<Seq<char>, Seq<char>>::empty(),
            s.docs() == Map::<(Seq<char>, Seq<char>), ProgressData>::empty(),
            s.reliable(),
    {
        let s = MemStore { users: Vec::new(), docs: Vec::new(), online: true };
        assert(s.users() =~= Map::<Seq<char>, Seq<char>>::empty());
        assert(s.docs() =~= Map::<(Seq<char>, Seq<char>), ProgressData>::empty());
        s
    }

    /// Switches the store on or off. What it holds does not change.
    pub fn set_online(&mut self, online: bool)
        ensures
            final(self).users() == old(self).users(),
            final(self).docs() == old(self).docs(),
            final(self).reliable() == online,
    {
        proof {
            use_type_invariant(&*self);
        }
        self.online = online;
    }

    fn find_user(&self, username: &str) -> (r: Option<usize>)
        ensures
            match r {
                Some(i) => i < self.users@.len() && self.users@[i as int].name@ == username@,
                None => forall|j: int|
                    0 <= j < self.users@.len() ==> (#[trigger] self.users@[j]).name@ != username@,
            },
    {
        let mut i: usize = 0;
        while i < self.users.len()
            invariant
                i <= self.users@.len(),
                forall|j: int| 0 <= j < i ==> (#[trigger] self.users@[j]).name@ != username@,
            decreases self.users@.len() - i,
        {
            if same_text(self.users[i].name.as_str(), username) {
                return Some(i);
            }
            i += 1;
        }
        None
    }

    fn find_doc(&self, username: &str, document: &str) -> (r: Option<usize>)
        ensures
            match r {
                Some(i) => {
                    &&& i < self.docs@.len()
                    &&& self.docs@[i as int].user@ == username@
                    &&& self.docs@[i as int].document@ == document@
                },
                None => forall|j: int|
                    0 <= j < self.docs@.len() ==> !((#[trigger] self.docs@[j]).user@ == username@
                        && self.docs@[j].document@ == document@),
            },
    {
        let mut i: usize = 0;
        while i < self.docs.len()
            invariant
                i <= self.docs@.len(),
                forall|j: int|
                    0 <= j < i ==> !((#[trigger] self.docs@[j]).user@ == username@
                        && self.docs@[j].document@ == document@),
            decreases self.docs@.len() - i,
        {
            if same_text(self.docs[i].user.as_str(), username) && same_text(
                self.docs[i].document.as_str(),
                document,
            ) {
                return Some(i);
            }
            i += 1;
        }
        None
    }
}

impl Store for MemStore {
    closed spec fn users(&self) -> Users {
        table_of(user_pairs(self.users@))
    }

    closed spec fn docs(&self) -> Docs {
        table_of(doc_pairs(self.docs@))
    }

    closed spec fn reliable(&self) -> bool {
        self.online
    }

    fn get_user(&self, username: &str) -> (r: Result<Option<String>, Fault>)
        ensures
            !self.reliable() ==> r is Err,
    {
        proof {
            use_type_invariant(self);
        }
        if !self.online {
            return Err(Fault);
        }
        match self.find_user(username) {
            Some(i) => {
                proof {
                    lemma_table_found(user_pairs(self.users@), i as int);
                }
                Ok(Some(self.users[i].secret.clone()))
            },
            None => {
                proof {
                    lemma_table_absent(user_pairs(self.users@), username@);
                }
                Ok(None)
            },
        }
    }

    fn put_user(&mut self, username: &str, secret: &str) -> (r: Result<(), Fault>)
        ensures
            !old(self).reliable() ==> r is Err,
    {
        proof {
            use_type_invariant(&*self);
        }
        if !self.online {
            return Err(Fault);
        }
        let entry = UserEntry { name: username.to_owned(), secret: secret.to_owned() };
        let place = self.find_user(username);
        // The entries are edited outside the store, which is thereby
        // well-formed at every step.
        let mut users: Vec<UserEntry> = Vec::new();
        std::mem::swap(&mut self.users, &mut users);
        let ghost before = users@;
        match place {
            Some(i) => {
                users.set(i, entry);
                proof {
                    lemma_table_update(user_pairs(before), i as int, secret@);
                    assert(user_pairs(users@) =~= user_pairs(before).update(
                        i as int,
                        (username@, secret@),
                    ));
                }
            },
            None => {
                users.push(entry);
                proof {
                    lemma_table_push(user_pairs(before), username@, secret@);
                    assert(user_pairs(users@) =~= user_pairs(before).push((username@, secret@)));
                }
            },
        }
        std::mem::swap(&mut self.users, &mut users);
        Ok(())
    }

    fn get_doc(&self, username: &str, document: &str) -> (r: Result<Option<ProgressState>, Fault>)
        ensures
            !self.reliable() ==> r is Err,
    {
        proof {
            use_type_invariant(self);
        }
        if !self.online {
            return Err(Fault);
        }
        match self.find_doc(username, document) {
            Some(i) => {
                proof {
                    lemma_table_found(doc_pairs(self.docs@), i as int);
                }
                Ok(Some(self.docs[i].record.clone()))
            },
            None => {
                proof {
                    lemma_table_absent(doc_pairs(self.docs@), (username@, document@));
                }
                Ok(None)
            },
        }
    }

    fn put_doc(&mut self, username: &str, document: &str, record: &ProgressState) -> (r: Result<
        (),
        Fault,
    >)
        ensures
            !old(self).reliable() ==> r is Err,
    {
        proof {
            use_type_invariant(&*self);
        }
        if !self.online {
            return Err(Fault);
        }
        let entry = DocEntry {
            user: username.to_owned(),
            document: document.to_owned(),
            record: record.clone(),
        };
        let place = self.find_doc(username, document);
        let mut docs: Vec<DocEntry> = Vec::new();
        std::mem::swap(&mut self.docs, &mut docs);
        let ghost before = docs@;
        match place {
            Some(i) => {
                docs.set(i, entry);
                proof {
                    lemma_table_update(doc_pairs(before), i as int, record@);
                    assert(doc_pairs(docs@) =~= doc_pairs(before).update(
                        i as int,
                        ((username@, document@), record@),
                    ));
                }
            },
            None => {
                docs.push(entry);
                proof {
                    lemma_table_push(doc_pairs(before), (username@, document@), record@);
                    assert(doc_pairs(docs@) =~= doc_pairs(before).push(
                        ((username@, document@), record@),
                    ));
                }
            },
        }
        std::mem::swap(&mut self.docs, &mut docs);
        Ok(())
    }
}

} // verus!
