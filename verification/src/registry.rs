//! The session registry: which wallets this gateway can reach, and how.
//!
//! A name is in the registry from the moment its wallet was first brought
//! to the loaded state. Nothing is ever taken out.

use crate::session::{Session, SessionView};
use dashmap::DashMap;
use vstd::prelude::*;

verus! {

/// `dashmap::DashMap`, made known so that a registry can hold one. Nothing
/// is said of what is inside it.
#[verifier::external_type_specification]
#[verifier::external_body]
#[verifier::reject_recursive_types(K)]
#[verifier::reject_recursive_types(V)]
#[verifier::reject_recursive_types(S)]
pub struct ExDashMap<K, V, S>(DashMap<K, V, S>);

/// The entries that a map of sessions holds, by wallet name.
pub uninterp spec fn held_sessions(map: DashMap<String, Session>) -> Map<Seq<char>, SessionView>;

/// `DashMap::new`: the new map holds nothing.
#[verifier::external_body]
fn empty_map() -> (fresh: DashMap<String, Session>)
    ensures
        held_sessions(fresh) =~= Map::empty(),
{
    DashMap::new()
}

/// `DashMap::get`: the entry under `name`, copied out, if there is one.
#[verifier::external_body]
fn find_session(map: &DashMap<String, Session>, name: &str) -> (found: Option<Session>)
    ensures
        found is Some == held_sessions(*map).contains_key(name@),
        found matches Some(session) ==> session@ == held_sessions(*map)[name@],
{
    map.get(name).map(|entry| entry.value().duplicate())
}

/// `DashMap::len`: the number of entries.
#[verifier::external_body]
fn count_sessions(map: &DashMap<String, Session>) -> (count: usize)
    requires
        held_sessions(*map).dom().finite(),
    ensures
        count == held_sessions(*map).len(),
{
    map.len()
}

/// The sessions of this gateway, by wallet name. Names are taken as they
/// are given: case counts, and nothing is trimmed.
pub struct Registry {
    map: DashMap<String, Session>,
}

impl Registry {
    #[verifier::type_invariant]
    spec fn holds_finitely_many(self) -> bool {
        held_sessions(self.map).dom().finite()
    }

    /// The registered sessions, by wallet name.
    pub closed spec fn entries(&self) -> Map<Seq<char>, SessionView> {
        held_sessions(self.map)
    }

    /// `DashMap::insert`, called by the only holder of the map: the entry
    /// for `name` is set, whatever it was, and every other entry stays. The
    /// value that was replaced is dropped.
    #[verifier::external_body]
    fn put(&mut self, name: String, session: Session)
        ensures
            held_sessions(final(self).map) == held_sessions(old(self).map).insert(
                name@,
                session@,
            ),
    {
        self.map.insert(name, session);
    }

    /// A registry with nothing in it.
    pub fn new() -> (registry: Registry)
        ensures
            registry.entries() =~= Map::empty(),
    {
        Registry { map: empty_map() }
    }

    /// Registers `session` under `name`. A session that was there under the
    /// same name is replaced; the last writer wins.
    pub fn insert(&mut self, name: String, session: Session)
        ensures
            final(self).entries() == old(self).entries().insert(name@, session@),
    {
        proof {
            use_type_invariant(&*self);
        }
        self.put(name, session);
    }

    /// The session registered under `name`, if there is one.
    pub fn get(&self, name: &str) -> (found: Option<Session>)
        ensures
            found is Some == self.entries().contains_key(name@),
            found matches Some(session) ==> session@ == self.entries()[name@],
    {
        find_session(&self.map, name)
    }

    /// Whether a session is registered under `name`.
    pub fn contains(&self, name: &str) -> (registered: bool)
        ensures
            registered == self.entries().contains_key(name@),
    {
        self.get(name).is_some()
    }

    /// The number of registered sessions.
    pub fn len(&self) -> (count: usize)
        ensures
            count == self.entries().len(),
            self.entries().dom().finite(),
    {
        proof {
            use_type_invariant(self);
        }
        count_sessions(&self.map)
    }
}

/// A name that is registered stays registered, whatever is registered
/// after it.
pub proof fn law_registered_names_stay(
    entries: Map<Seq<char>, SessionView>,
    known: Seq<char>,
    name: Seq<char>,
    session: SessionView,
)
    requires
        entries.contains_key(known),
    ensures
        entries.insert(name, session).contains_key(known),
        known != name ==> entries.insert(name, session)[known] == entries[known],
{
}

/// The registry `start` after the sessions of `added` were registered one
/// after the other, each under its own wallet name.
pub open spec fn register_all(
    start: Map<Seq<char>, SessionView>,
    added: Seq<SessionView>,
) -> Map<Seq<char>, SessionView>
    decreases added.len(),
{
    if added.len() == 0 {
        start
    } else {
        register_all(start, added.drop_last()).insert(added.last().wallet, added.last())
    }
}

/// Whether the sessions of `added` are for wallets with different names,
/// none of which `start` knows.
pub open spec fn all_new(start: Map<Seq<char>, SessionView>, added: Seq<SessionView>) -> bool {
    &&& forall|i: int| 0 <= i < added.len() ==> !start.contains_key(#[trigger] added[i].wallet)
    &&& forall|i: int, j: int|
        0 <= i < j < added.len() ==> #[trigger] added[i].wallet != #[trigger] added[j].wallet
}

/// Registering sessions for new wallets with different names loses none
/// of them: the registry grows by their number, each is found under its
/// name, and what was registered before stays as it was.
pub proof fn law_registrations_are_kept(
    start: Map<Seq<char>, SessionView>,
    added: Seq<SessionView>,
)
    requires
        start.dom().finite(),
        all_new(start, added),
    ensures
        register_all(start, added).dom().finite(),
        register_all(start, added).len() == start.len() + added.len(),
        forall|i: int|
            0 <= i < added.len() ==> {
                &&& register_all(start, added).contains_key(#[trigger] added[i].wallet)
                &&& register_all(start, added)[added[i].wallet] == added[i]
            },
        forall|name: Seq<char>|
            start.contains_key(name) ==> {
                &&& #[trigger] register_all(start, added).contains_key(name)
                &&& register_all(start, added)[name] == start[name]
            },
        forall|name: Seq<char>| #[trigger]
            register_all(start, added).contains_key(name) ==> start.contains_key(name) || exists|
                i: int,
            |
                0 <= i < added.len() && added[i].wallet == name,
    decreases added.len(),
{
    if added.len() > 0 {
        let before = added.drop_last();
        let last = added.last();
        assert forall|i: int| 0 <= i < before.len() implies !start.contains_key(
            #[trigger] before[i].wallet,
        ) by {
            assert(before[i] == added[i]);
        }
        assert forall|i: int, j: int| 0 <= i < j < before.len() implies #[trigger] before[i].wallet
            != #[trigger] before[j].wallet by {
            assert(before[i] == added[i]);
            assert(before[j] == added[j]);
        }
        law_registrations_are_kept(start, before);
        let earlier = register_all(start, before);
        assert(!earlier.contains_key(last.wallet)) by {
            if earlier.contains_key(last.wallet) {
                assert(!start.contains_key(added[added.len() - 1].wallet));
                let i = choose|i: int| 0 <= i < before.len() && before[i].wallet == last.wallet;
                assert(before[i] == added[i]);
                assert(added[i].wallet != added[added.len() - 1].wallet);
            }
        }
        assert forall|i: int| 0 <= i < added.len() implies {
            &&& register_all(start, added).contains_key(#[trigger] added[i].wallet)
            &&& register_all(start, added)[added[i].wallet] == added[i]
        } by {
            if i < before.len() {
                assert(before[i] == added[i]);
                assert(added[i].wallet != added[added.len() - 1].wallet);
            }
        }
        assert forall|name: Seq<char>| #[trigger]
            register_all(start, added).contains_key(name) implies start.contains_key(name)
            || exists|i: int| 0 <= i < added.len() && added[i].wallet == name by {
            if name == last.wallet {
                assert(added[added.len() - 1].wallet == name);
            } else if !start.contains_key(name) {
                assert(earlier.contains_key(name));
                let i = choose|i: int| 0 <= i < before.len() && before[i].wallet == name;
                assert(before[i] == added[i]);
            }
        }
    }
}

} // verus!
