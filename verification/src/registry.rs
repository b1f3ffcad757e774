//! The session registry: which user is served by which client, on which
//! pseudo-terminal, in which container. One record per user holds what the
//! five indexes of the gateway say of that user, so that they cannot
//! disagree.

use crate::text::{opt_text, same_text};
use vstd::prelude::*;

verus! {

/// What the registry holds for one user.
#[derive(Debug, PartialEq, Eq)]
pub struct Session {
    /// The user.
    pub email: String,
    /// The client connection that serves the user.
    pub client: String,
    /// The master side of the interactive pseudo-terminal, once attached.
    pub master: Option<u64>,
    /// The container of the user, once known.
    pub container: Option<String>,
    /// The master side of the pseudo-terminal for shell commands, if any.
    pub secondary: Option<u64>,
}

/// A `Session` over plain sequences.
pub struct SessionView {
    pub email: Seq<char>,
    pub client: Seq<char>,
    pub master: Option<u64>,
    pub container: Option<Seq<char>>,
    pub secondary: Option<u64>,
}

impl View for Session {
    type V = SessionView;

    open spec fn view(&self) -> SessionView {
        SessionView {
            email: self.email@,
            client: self.client@,
            master: self.master,
            container: opt_text(self.container),
            secondary: self.secondary,
        }
    }
}

/// The record of a user who has just been registered: no pseudo-terminal
/// and no container yet.
pub open spec fn fresh_session(email: Seq<char>, client: Seq<char>) -> SessionView {
    SessionView { email, client, master: None, container: None, secondary: None }
}

/// Some record of `s` is for `email`.
pub open spec fn has_email(s: Seq<SessionView>, email: Seq<char>) -> bool {
    exists|i: int| 0 <= i < s.len() && #[trigger] s[i].email == email
}

/// Some record of `s` is served by `client`.
pub open spec fn has_client(s: Seq<SessionView>, client: Seq<char>) -> bool {
    exists|i: int| 0 <= i < s.len() && #[trigger] s[i].client == client
}

/// The place of a record for `email` in `s`.
pub open spec fn email_index(s: Seq<SessionView>, email: Seq<char>) -> int {
    choose|i: int| 0 <= i < s.len() && #[trigger] s[i].email == email
}

/// The place of a record served by `client` in `s`.
pub open spec fn client_index(s: Seq<SessionView>, client: Seq<char>) -> int {
    choose|i: int| 0 <= i < s.len() && #[trigger] s[i].client == client
}

/// No two records are for the same user, and no two are served by the same
/// client.
pub open spec fn consistent(s: Seq<SessionView>) -> bool {
    forall|i: int, j: int|
        0 <= i < s.len() && 0 <= j < s.len() && i != j ==> (#[trigger] s[i]).email != (
        #[trigger] s[j]).email && s[i].client != s[j].client
}

/// `s` without the record for `email`.
pub open spec fn without_email(s: Seq<SessionView>, email: Seq<char>) -> Seq<SessionView> {
    if has_email(s, email) {
        s.remove(email_index(s, email))
    } else {
        s
    }
}

/// `s` without the record served by `client`.
pub open spec fn without_client(s: Seq<SessionView>, client: Seq<char>) -> Seq<SessionView> {
    if has_client(s, client) {
        s.remove(client_index(s, client))
    } else {
        s
    }
}

/// The index from user to interactive pseudo-terminal.
pub open spec fn email_to_master(s: Seq<SessionView>) -> Map<Seq<char>, Option<u64>> {
    Map::new(|e: Seq<char>| has_email(s, e), |e: Seq<char>| s[email_index(s, e)].master)
}

/// The index from user to client.
pub open spec fn email_to_client(s: Seq<SessionView>) -> Map<Seq<char>, Seq<char>> {
    Map::new(|e: Seq<char>| has_email(s, e), |e: Seq<char>| s[email_index(s, e)].client)
}

/// The index from client to user.
pub open spec fn client_to_email(s: Seq<SessionView>) -> Map<Seq<char>, Seq<char>> {
    Map::new(|c: Seq<char>| has_client(s, c), |c: Seq<char>| s[client_index(s, c)].email)
}

/// The index from user to container.
pub open spec fn email_to_container(s: Seq<SessionView>) -> Map<Seq<char>, Option<Seq<char>>> {
    Map::new(|e: Seq<char>| has_email(s, e), |e: Seq<char>| s[email_index(s, e)].container)
}

/// The index from user to the pseudo-terminal for shell commands.
pub open spec fn email_to_secondary(s: Seq<SessionView>) -> Map<Seq<char>, Option<u64>> {
    Map::new(|e: Seq<char>| has_email(s, e), |e: Seq<char>| s[email_index(s, e)].secondary)
}

/// The interactive pseudo-terminal of `email`, if one is attached.
pub open spec fn master_for(s: Seq<SessionView>, email: Seq<char>) -> Option<u64> {
    if has_email(s, email) {
        s[email_index(s, email)].master
    } else {
        None
    }
}

/// The pseudo-terminal for shell commands of `email`, if there is one.
pub open spec fn secondary_for(s: Seq<SessionView>, email: Seq<char>) -> Option<u64> {
    if has_email(s, email) {
        s[email_index(s, email)].secondary
    } else {
        None
    }
}

/// The container of `email`, if one is recorded.
pub open spec fn container_for(s: Seq<SessionView>, email: Seq<char>) -> Option<Seq<char>> {
    if has_email(s, email) {
        s[email_index(s, email)].container
    } else {
        None
    }
}

/// The number of records of `s` that are for `email` and have an
/// interactive pseudo-terminal attached: the live sessions of `email`.
pub open spec fn live_sessions(s: Seq<SessionView>, email: Seq<char>) -> nat
    decreases s.len(),
{
    if s.len() == 0 {
        0
    } else {
        live_sessions(s.drop_last(), email) + (if s.last().email == email && s.last().master
            is Some {
            1nat
        } else {
            0nat
        })
    }
}

/// In a consistent sequence the record for a user is found at one place
/// only.
pub proof fn lemma_email_index(s: Seq<SessionView>, i: int)
    requires
        consistent(s),
        0 <= i < s.len(),
    ensures
        has_email(s, s[i].email),
        email_index(s, s[i].email) == i,
{
    let j = email_index(s, s[i].email);
    assert(0 <= j < s.len() && s[j].email == s[i].email);
}

/// In a consistent sequence the record served by a client is found at one
/// place only.
pub proof fn lemma_client_index(s: Seq<SessionView>, i: int)
    requires
        consistent(s),
        0 <= i < s.len(),
    ensures
        has_client(s, s[i].client),
        client_index(s, s[i].client) == i,
{
    let j = client_index(s, s[i].client);
    assert(0 <= j < s.len() && s[j].client == s[i].client);
}

/// Taking one record out keeps a sequence consistent, and the user and
/// the client of that record are then unknown.
pub proof fn lemma_remove_consistent(s: Seq<SessionView>, i: int)
    requires
        consistent(s),
        0 <= i < s.len(),
    ensures
        consistent(s.remove(i)),
        !has_email(s.remove(i), s[i].email),
        !has_client(s.remove(i), s[i].client),
        forall|e: Seq<char>| e != s[i].email ==> has_email(s.remove(i), e) == has_email(s, e),
        forall|c: Seq<char>| c != s[i].client ==> has_client(s.remove(i), c) == has_client(s, c),
{
    let r = s.remove(i);
    assert forall|a: int, b: int| 0 <= a < r.len() && 0 <= b < r.len() && a != b implies (
    #[trigger] r[a]).email != (#[trigger] r[b]).email && r[a].client != r[b].client by {
        let a2 = if a < i {
            a
        } else {
            a + 1
        };
        let b2 = if b < i {
            b
        } else {
            b + 1
        };
        assert(r[a] == s[a2] && r[b] == s[b2]);
    }
    assert forall|k: int| 0 <= k < r.len() implies (#[trigger] r[k]).email != s[i].email
        && r[k].client != s[i].client by {
        let k2 = if k < i {
            k
        } else {
            k + 1
        };
        assert(r[k] == s[k2]);
    }
    assert forall|e: Seq<char>| e != s[i].email implies has_email(r, e) == has_email(s, e) by {
        if has_email(s, e) {
            let k = email_index(s, e);
            let k2 = if k < i {
                k
            } else {
                k - 1
            };
            assert(r[k2] == s[k]);
        }
        if has_email(r, e) {
            let k = email_index(r, e);
            let k2 = if k < i {
                k
            } else {
                k + 1
            };
            assert(r[k] == s[k2]);
        }
    }
    assert forall|c: Seq<char>| c != s[i].client implies has_client(r, c) == has_client(s, c) by {
        if has_client(s, c) {
            let k = client_index(s, c);
            let k2 = if k < i {
                k
            } else {
                k - 1
            };
            assert(r[k2] == s[k]);
        }
        if has_client(r, c) {
            let k = client_index(r, c);
            let k2 = if k < i {
                k
            } else {
                k + 1
            };
            assert(r[k] == s[k2]);
        }
    }
}

/// The indexes of a consistent registry agree: every user for whom a
/// pseudo-terminal entry exists has a client, and that client leads back to
/// the user. The same users have an entry in each index that is keyed by
/// user.
pub proof fn lemma_indexes_agree(s: Seq<SessionView>, email: Seq<char>)
    requires
        consistent(s),
        email_to_master(s).dom().contains(email),
    ensures
        email_to_client(s).dom().contains(email),
        client_to_email(s).dom().contains(email_to_client(s)[email]),
        client_to_email(s)[email_to_client(s)[email]] == email,
        email_to_container(s).dom().contains(email),
        email_to_secondary(s).dom().contains(email),
{
    let i = email_index(s, email);
    lemma_client_index(s, i);
}

/// Every client of a consistent registry leads to a user whose entries
/// lead back to that client.
pub proof fn lemma_indexes_agree_back(s: Seq<SessionView>, client: Seq<char>)
    requires
        consistent(s),
        client_to_email(s).dom().contains(client),
    ensures
        email_to_client(s).dom().contains(client_to_email(s)[client]),
        email_to_master(s).dom().contains(client_to_email(s)[client]),
        email_to_client(s)[client_to_email(s)[client]] == client,
{
    let i = client_index(s, client);
    lemma_email_index(s, i);
}

/// Where no record is for `email`, none of its sessions is live.
pub proof fn lemma_no_record_no_session(s: Seq<SessionView>, email: Seq<char>)
    requires
        forall|i: int| 0 <= i < s.len() ==> (#[trigger] s[i]).email != email,
    ensures
        live_sessions(s, email) == 0,
    decreases s.len(),
{
    if s.len() > 0 {
        let r = s.drop_last();
        assert forall|i: int| 0 <= i < r.len() implies (#[trigger] r[i]).email != email by {
            assert(r[i] == s[i]);
        }
        lemma_no_record_no_session(r, email);
    }
}

/// A user never has two live sessions: in a consistent registry the number
/// of records for a user with a pseudo-terminal attached is zero or one.
pub proof fn lemma_at_most_one_session(s: Seq<SessionView>, email: Seq<char>)
    requires
        consistent(s),
    ensures
        live_sessions(s, email) <= 1,
    decreases s.len(),
{
    if s.len() > 0 {
        let r = s.drop_last();
        assert(consistent(r)) by {
            assert forall|a: int, b: int| 0 <= a < r.len() && 0 <= b < r.len() && a != b implies (
            #[trigger] r[a]).email != (#[trigger] r[b]).email && r[a].client != r[b].client by {
                assert(r[a] == s[a] && r[b] == s[b]);
            }
        }
        if s.last().email == email {
            assert forall|i: int| 0 <= i < r.len() implies (#[trigger] r[i]).email != email by {
                assert(r[i] == s[i]);
                assert(s[s.len() - 1].email == email);
            }
            lemma_no_record_no_session(r, email);
        } else {
            lemma_at_most_one_session(r, email);
        }
    }
}

/// The session registry.
pub struct Registry {
    sessions: Vec<Session>,
}

impl View for Registry {
    type V = Seq<SessionView>;

    closed spec fn view(&self) -> Seq<SessionView> {
        Seq::new(self.sessions@.len(), |i: int| self.sessions@[i]@)
    }
}

impl Registry {
    /// The registry is consistent at all times.
    #[verifier::type_invariant]
    pub open spec fn wf(self) -> bool {
        consistent(self@)
    }

    /// An empty registry.
    pub fn new() -> (r: Registry)
        ensures
            r@ == Seq::<SessionView>::empty(),
            consistent(r@),
    {
        let r = Registry { sessions: Vec::new() };
        assert(r@ =~= Seq::<SessionView>::empty());
        r
    }

    /// The number of users registered.
    pub fn len(&self) -> (n: usize)
        ensures
            n == self@.len(),
            consistent(self@),
    {
        proof {
            use_type_invariant(self);
        }
        self.sessions.len()
    }

    /// The place of the record for `email`, if there is one.
    fn find_email(&self, email: &str) -> (r: Option<usize>)
        ensures
            consistent(self@),
            r is Some <==> has_email(self@, email@),
            r matches Some(i) ==> i < self@.len() && i == email_index(self@, email@),
    {
        proof {
            use_type_invariant(self);
        }
        let mut i: usize = 0;
        while i < self.sessions.len()
            invariant
                i <= self.sessions@.len(),
                self@.len() == self.sessions@.len(),
                consistent(self@),
                forall|k: int| 0 <= k < i ==> (#[trigger] self@[k]).email != email@,
            decreases self.sessions@.len() - i,
        {
            assert(self@[i as int] == self.sessions@[i as int]@);
            if same_text(self.sessions[i].email.as_str(), email) {
                proof {
                    lemma_email_index(self@, i as int);
                }
                return Some(i);
            }
            i += 1;
        }
        None
    }

    /// The place of the record served by `client`, if there is one.
    fn find_client(&self, client: &str) -> (r: Option<usize>)
        ensures
            consistent(self@),
            r is Some <==> has_client(self@, client@),
            r matches Some(i) ==> i < self@.len() && i == client_index(self@, client@),
    {
        proof {
            use_type_invariant(self);
        }
        let mut i: usize = 0;
        while i < self.sessions.len()
            invariant
                i <= self.sessions@.len(),
                self@.len() == self.sessions@.len(),
                consistent(self@),
                forall|k: int| 0 <= k < i ==> (#[trigger] self@[k]).client != client@,
            decreases self.sessions@.len() - i,
        {
            assert(self@[i as int] == self.sessions@[i as int]@);
            if same_text(self.sessions[i].client.as_str(), client) {
                proof {
                    lemma_client_index(self@, i as int);
                }
                return Some(i);
            }
            i += 1;
        }
        None
    }

    /// Whether `email` is registered.
    pub fn contains(&self, email: &str) -> (b: bool)
        ensures
            consistent(self@),
            b == has_email(self@, email@),
    {
        self.find_email(email).is_some()
    }

    /// The interactive pseudo-terminal of `email`, if one is attached.
    pub fn master_of(&self, email: &str) -> (r: Option<u64>)
        ensures
            consistent(self@),
            r == master_for(self@, email@),
    {
        match self.find_email(email) {
            Some(i) => {
                assert(self@[i as int] == self.sessions@[i as int]@);
                self.sessions[i].master
            },
            None => None,
        }
    }

    /// The pseudo-terminal for shell commands of `email`, if there is one.
    pub fn secondary_of(&self, email: &str) -> (r: Option<u64>)
        ensures
            consistent(self@),
            r == secondary_for(self@, email@),
    {
        match self.find_email(email) {
            Some(i) => {
                assert(self@[i as int] == self.sessions@[i as int]@);
                self.sessions[i].secondary
            },
            None => None,
        }
    }

    /// The container of `email`, if one is recorded.
    pub fn container_of(&self, email: &str) -> (r: Option<String>)
        ensures
            consistent(self@),
            opt_text(r) == container_for(self@, email@),
    {
        match self.find_email(email) {
            Some(i) => {
                assert(self@[i as int] == self.sessions@[i as int]@);
                match &self.sessions[i].container {
                    Some(c) => Some(c.clone()),
                    None => None,
                }
            },
            None => None,
        }
    }

    /// The client that serves `email`, if `email` is registered.
    pub fn client_of(&self, email: &str) -> (r: Option<String>)
        ensures
            consistent(self@),
            r is Some <==> has_email(self@, email@),
            r matches Some(c) ==> c@ == email_to_client(self@)[email@],
    {
        match self.find_email(email) {
            Some(i) => {
                assert(self@[i as int] == self.sessions@[i as int]@);
                Some(self.sessions[i].client.clone())
            },
            None => None,
        }
    }

    /// The user that `client` serves, if it serves one.
    pub fn email_of(&self, client: &str) -> (r: Option<String>)
        ensures
            consistent(self@),
            r is Some <==> has_client(self@, client@),
            r matches Some(e) ==> e@ == client_to_email(self@)[client@],
    {
        match self.find_client(client) {
            Some(i) => {
                assert(self@[i as int] == self.sessions@[i as int]@);
                Some(self.sessions[i].email.clone())
            },
            None => None,
        }
    }

    /// Takes the record for `email` out of every index and hands it back.
    /// `None` says that `email` was not registered; the registry is then
    /// unchanged.
    pub fn remove(&mut self, email: &str) -> (r: Option<Session>)
        ensures
            consistent(final(self)@),
            final(self)@ == without_email(old(self)@, email@),
            final(self)@ == applied(old(self)@, RegistryOp::Remove { email: email@ }),
            !has_email(final(self)@, email@),
            r is Some <==> has_email(old(self)@, email@),
            r matches Some(s) ==> s@ == old(self)@[email_index(old(self)@, email@)],
    {
        match self.find_email(email) {
            Some(i) => {
                proof {
                    assert(self@[i as int] == self.sessions@[i as int]@);
                    lemma_remove_consistent(self@, i as int);
                }
                let ghost before = self@;
                let mut held: Vec<Session> = Vec::new();
                core::mem::swap(&mut self.sessions, &mut held);
                let s = held.remove(i);
                assert(Seq::new(held@.len(), |k: int| held@[k]@) =~= before.remove(i as int));
                core::mem::swap(&mut self.sessions, &mut held);
                assert(self@ =~= before.remove(i as int));
                Some(s)
            },
            None => None,
        }
    }

    /// Takes the record served by `client` out of every index and hands it
    /// back. `None` says that `client` served nobody; the registry is then
    /// unchanged.
    pub fn remove_client(&mut self, client: &str) -> (r: Option<Session>)
        ensures
            consistent(final(self)@),
            final(self)@ == without_client(old(self)@, client@),
            final(self)@ == applied(old(self)@, RegistryOp::RemoveClient { client: client@ }),
            !has_client(final(self)@, client@),
            r is Some <==> has_client(old(self)@, client@),
            r matches Some(s) ==> s@ == old(self)@[client_index(old(self)@, client@)],
    {
        match self.find_client(client) {
            Some(i) => {
                proof {
                    assert(self@[i as int] == self.sessions@[i as int]@);
                    lemma_remove_consistent(self@, i as int);
                }
                let ghost before = self@;
                let mut held: Vec<Session> = Vec::new();
                core::mem::swap(&mut self.sessions, &mut held);
                let s = held.remove(i);
                assert(Seq::new(held@.len(), |k: int| held@[k]@) =~= before.remove(i as int));
                core::mem::swap(&mut self.sessions, &mut held);
                assert(self@ =~= before.remove(i as int));
                Some(s)
            },
            None => None,
        }
    }

    /// Registers `email` as served by `client`. A record that was there for
    /// `email`, and one that was there for `client`, leave the registry and
    /// are handed back, so that their pseudo-terminals can be closed. The
    /// new record has no pseudo-terminal and no container yet.
    pub fn register(&mut self, email: &str, client: &str) -> (evicted: (
        Option<Session>,
        Option<Session>,
    ))
        ensures
            consistent(final(self)@),
            final(self)@ == without_client(without_email(old(self)@, email@), client@).push(
                fresh_session(email@, client@),
            ),
            final(self)@ == applied(
                old(self)@,
                RegistryOp::Register { email: email@, client: client@ },
            ),
            evicted.0 is Some <==> has_email(old(self)@, email@),
            evicted.0 matches Some(s) ==> s@ == old(self)@[email_index(old(self)@, email@)],
            evicted.1 is Some <==> has_client(without_email(old(self)@, email@), client@),
            evicted.1 matches Some(s) ==> s@ == without_email(old(self)@, email@)[client_index(
                without_email(old(self)@, email@),
                client@,
            )],
            has_email(final(self)@, email@),
            master_for(final(self)@, email@) is None,
            email_to_client(final(self)@)[email@] == client@,
    {
        let by_email = self.remove(email);
        let by_client = self.remove_client(client);
        let ghost mid = self@;
        let fresh = Session {
            email: email.to_owned(),
            client: client.to_owned(),
            master: None,
            container: None,
            secondary: None,
        };
        proof {
            use_type_invariant(&*self);
            let after = mid.push(fresh@);
            assert forall|a: int, b: int|
                0 <= a < after.len() && 0 <= b < after.len() && a != b implies (
            #[trigger] after[a]).email != (#[trigger] after[b]).email && after[a].client
                != after[b].client by {
                if a < mid.len() {
                    assert(after[a] == mid[a]);
                }
                if b < mid.len() {
                    assert(after[b] == mid[b]);
                }
            }
            assert(after[mid.len() as int].email == email@);
            lemma_email_index(after, mid.len() as int);
        }
        let mut held: Vec<Session> = Vec::new();
        core::mem::swap(&mut self.sessions, &mut held);
        held.push(fresh);
        assert(Seq::new(held@.len(), |k: int| held@[k]@) =~= mid.push(
            fresh_session(email@, client@),
        ));
        core::mem::swap(&mut self.sessions, &mut held);
        assert(self@ =~= mid.push(fresh_session(email@, client@)));
        (by_email, by_client)
    }

    /// Records the interactive pseudo-terminal and the container of
    /// `email`. The pseudo-terminal that was recorded before, if any, is
    /// handed back so that it can be closed. For a user who is not
    /// registered nothing changes and `Err` is returned.
    pub fn attach(&mut self, email: &str, master: u64, container: &str) -> (r: Result<
        Option<u64>,
        (),
    >)
        ensures
            consistent(final(self)@),
            r is Ok <==> has_email(old(self)@, email@),
            r matches Ok(stale) ==> stale == master_for(old(self)@, email@) && final(self)@ == old(
                self,
            )@.update(
                email_index(old(self)@, email@),
                SessionView {
                    master: Some(master),
                    container: Some(container@),
                    ..old(self)@[email_index(old(self)@, email@)]
                },
            ),
            r is Err ==> final(self)@ == old(self)@,
            final(self)@ == applied(
                old(self)@,
                RegistryOp::Attach { email: email@, master, container: container@ },
            ),
            r is Ok ==> master_for(final(self)@, email@) == Some(master) && container_for(
                final(self)@,
                email@,
            ) == Some(container@),
    {
        match self.find_email(email) {
            Some(i) => {
                let ghost before = self@;
                assert(before[i as int] == self.sessions@[i as int]@);
                let mut held: Vec<Session> = Vec::new();
                core::mem::swap(&mut self.sessions, &mut held);
                let mut s = held.remove(i);
                let stale = s.master;
                s.master = Some(master);
                s.container = Some(container.to_owned());
                let ghost updated = s@;
                held.insert(i, s);
                proof {
                    let after = before.update(i as int, updated);
                    assert(Seq::new(held@.len(), |k: int| held@[k]@) =~= after);
                    lemma_update_consistent(before, i as int, updated);
                }
                core::mem::swap(&mut self.sessions, &mut held);
                assert(self@ =~= before.update(i as int, updated));
                Ok(stale)
            },
            None => Err(()),
        }
    }

    /// Records the pseudo-terminal for shell commands of `email`, or takes
    /// the record of it away where `secondary` is `None`. The one that was
    /// recorded before, if any, is handed back so that it can be closed. For
    /// a user who is not registered nothing changes and `Err` is returned.
    pub fn set_secondary(&mut self, email: &str, secondary: Option<u64>) -> (r: Result<
        Option<u64>,
        (),
    >)
        ensures
            consistent(final(self)@),
            r is Ok <==> has_email(old(self)@, email@),
            r matches Ok(stale) ==> stale == secondary_for(old(self)@, email@) && final(self)@
                == old(self)@.update(
                email_index(old(self)@, email@),
                SessionView { secondary, ..old(self)@[email_index(old(self)@, email@)] },
            ),
            r is Err ==> final(self)@ == old(self)@,
            final(self)@ == applied(
                old(self)@,
                RegistryOp::SetSecondary { email: email@, secondary },
            ),
            r is Ok ==> secondary_for(final(self)@, email@) == secondary,
    {
        match self.find_email(email) {
            Some(i) => {
                let ghost before = self@;
                assert(before[i as int] == self.sessions@[i as int]@);
                let mut held: Vec<Session> = Vec::new();
                core::mem::swap(&mut self.sessions, &mut held);
                let mut s = held.remove(i);
                let stale = s.secondary;
                s.secondary = secondary;
                let ghost updated = s@;
                held.insert(i, s);
                proof {
                    let after = before.update(i as int, updated);
                    assert(Seq::new(held@.len(), |k: int| held@[k]@) =~= after);
                    lemma_update_consistent(before, i as int, updated);
                }
                core::mem::swap(&mut self.sessions, &mut held);
                assert(self@ =~= before.update(i as int, updated));
                Ok(stale)
            },
            None => Err(()),
        }
    }
}

/// Changing a record, but not its user or its client, keeps a sequence
/// consistent, and the record is still found under its user.
pub proof fn lemma_update_consistent(s: Seq<SessionView>, i: int, updated: SessionView)
    requires
        consistent(s),
        0 <= i < s.len(),
        updated.email == s[i].email,
        updated.client == s[i].client,
    ensures
        consistent(s.update(i, updated)),
        has_email(s.update(i, updated), updated.email),
        email_index(s.update(i, updated), updated.email) == i,
{
    let r = s.update(i, updated);
    assert forall|a: int, b: int| 0 <= a < r.len() && 0 <= b < r.len() && a != b implies (
    #[trigger] r[a]).email != (#[trigger] r[b]).email && r[a].client != r[b].client by {
        assert(r[a].email == s[a].email && r[a].client == s[a].client);
        assert(r[b].email == s[b].email && r[b].client == s[b].client);
    }
    assert(r[i].email == updated.email);
    lemma_email_index(r, i);
}

/// One change of the registry.
pub enum RegistryOp {
    /// A user is registered for a client.
    Register { email: Seq<char>, client: Seq<char> },
    /// The pseudo-terminal and the container of a user are recorded.
    Attach { email: Seq<char>, master: u64, container: Seq<char> },
    /// The pseudo-terminal for shell commands of a user is set or cleared.
    SetSecondary { email: Seq<char>, secondary: Option<u64> },
    /// A user is removed.
    Remove { email: Seq<char> },
    /// The user that a client serves is removed.
    RemoveClient { client: Seq<char> },
}

/// The registry after one change, as the operations of `Registry` make it.
pub open spec fn applied(s: Seq<SessionView>, op: RegistryOp) -> Seq<SessionView> {
    match op {
        RegistryOp::Register { email, client } => without_client(
            without_email(s, email),
            client,
        ).push(fresh_session(email, client)),
        RegistryOp::Attach { email, master, container } => if has_email(s, email) {
            s.update(
                email_index(s, email),
                SessionView {
                    master: Some(master),
                    container: Some(container),
                    ..s[email_index(s, email)]
                },
            )
        } else {
            s
        },
        RegistryOp::SetSecondary { email, secondary } => if has_email(s, email) {
            s.update(
                email_index(s, email),
                SessionView { secondary, ..s[email_index(s, email)] },
            )
        } else {
            s
        },
        RegistryOp::Remove { email } => without_email(s, email),
        RegistryOp::RemoveClient { client } => without_client(s, client),
    }
}

/// The registry after the changes `ops`, made one after the other.
pub open spec fn applied_all(s: Seq<SessionView>, ops: Seq<RegistryOp>) -> Seq<SessionView>
    decreases ops.len(),
{
    if ops.len() == 0 {
        s
    } else {
        applied(applied_all(s, ops.drop_last()), ops.last())
    }
}

/// Every change keeps the registry consistent.
pub proof fn lemma_applied_consistent(s: Seq<SessionView>, op: RegistryOp)
    requires
        consistent(s),
    ensures
        consistent(applied(s, op)),
{
    match op {
        RegistryOp::Register { email, client } => {
            let a = without_email(s, email);
            if has_email(s, email) {
                lemma_remove_consistent(s, email_index(s, email));
            }
            let b = without_client(a, client);
            if has_client(a, client) {
                lemma_remove_consistent(a, client_index(a, client));
            }
            let fresh = fresh_session(email, client);
            let after = b.push(fresh);
            assert forall|i: int, j: int|
                0 <= i < after.len() && 0 <= j < after.len() && i != j implies (
            #[trigger] after[i]).email != (#[trigger] after[j]).email && after[i].client
                != after[j].client by {
                if i < b.len() {
                    assert(after[i] == b[i]);
                }
                if j < b.len() {
                    assert(after[j] == b[j]);
                }
            }
        },
        RegistryOp::Attach { email, master, container } => {
            if has_email(s, email) {
                let i = email_index(s, email);
                lemma_update_consistent(
                    s,
                    i,
                    SessionView { master: Some(master), container: Some(container), ..s[i] },
                );
            }
        },
        RegistryOp::SetSecondary { email, secondary } => {
            if has_email(s, email) {
                let i = email_index(s, email);
                lemma_update_consistent(s, i, SessionView { secondary, ..s[i] });
            }
        },
        RegistryOp::Remove { email } => {
            if has_email(s, email) {
                lemma_remove_consistent(s, email_index(s, email));
            }
        },
        RegistryOp::RemoveClient { client } => {
            if has_client(s, client) {
                lemma_remove_consistent(s, client_index(s, client));
            }
        },
    }
}

/// However loads and closes follow each other, a user never has two live
/// sessions: after any run of changes, made one at a time on a registry
/// that was empty, every user has no live session or exactly one.
pub proof fn lemma_never_two_sessions(ops: Seq<RegistryOp>, email: Seq<char>)
    ensures
        consistent(applied_all(Seq::empty(), ops)),
        live_sessions(applied_all(Seq::empty(), ops), email) <= 1,
    decreases ops.len(),
{
    let empty = Seq::<SessionView>::empty();
    if ops.len() > 0 {
        lemma_never_two_sessions(ops.drop_last(), email);
        lemma_applied_consistent(applied_all(empty, ops.drop_last()), ops.last());
    }
    lemma_at_most_one_session(applied_all(empty, ops), email);
}

} // verus!
