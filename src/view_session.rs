//! The lobby registry: lobby names and identifiers mapped to live lobbies.
use std::collections::HashMap;
use vstd::prelude::*;

use crate::entries::{entries_map, find_last, lemma_entries_map_value};
use crate::lobby_id::{hyphenated_text, id_to_string, new_random_id, parse_id, uuid_parsed};

verus! {

broadcast use vstd::std_specs::hash::group_hash_axioms;

/// `std::time::Instant`, carried opaque in a session.
#[verifier::external_type_specification]
#[verifier::external_body]
pub struct ExInstant(std::time::Instant);

/// The current reading of the monotonic clock; nothing is known of it.
pub assume_specification[ std::time::Instant::now ]() -> std::time::Instant;

/// The playback state of one lobby: for now the moment the session began.
pub struct ViewSession {
    current_time: std::time::Instant,
}

impl ViewSession {
    pub fn new() -> ViewSession {
        ViewSession { current_time: std::time::Instant::now() }
    }
}

/// One lobby: its identifier, the identifier's text, and its session.
pub struct Lobby {
    view_session: ViewSession,
    unique_id: u128,
    id_text: String,
}

impl Lobby {
    /// A lobby under the identifier `unique_id`.
    fn new(unique_id: u128) -> (r: Lobby)
        ensures
            r.unique_id == unique_id,
            r.id_text@ == hyphenated_text(r.unique_id),
            uuid_parsed(hyphenated_text(r.unique_id)) == Some(r.unique_id),
    {
        let id_text = id_to_string(unique_id);
        Lobby { view_session: ViewSession::new(), unique_id, id_text }
    }
}

/// The identifier that a text spells, as an integer; -1 where it spells none.
pub open spec fn spelled(k: Seq<char>) -> int {
    match uuid_parsed(k) {
        Some(u) => u as int,
        None => -1,
    }
}

/// The registry of lobbies, reached by identifier or by name.
///
/// Every name points at an identifier that has a lobby; an identifier may
/// have a lobby without a name.
pub struct LobbyHandler {
    lobbies: HashMap<u128, Lobby>,
    custom_name_map: Vec<(String, u128)>,
}

impl LobbyHandler {
    /// The identifiers that have a lobby.
    pub closed spec fn lobby_ids(&self) -> Set<u128> {
        self.lobbies@.dom()
    }

    /// The names, each with the identifier it stands for.
    pub closed spec fn names(&self) -> Map<Seq<char>, u128> {
        entries_map(self.custom_name_map@)
    }

    pub closed spec fn wf(&self) -> bool {
        &&& forall|i: int|
            0 <= i < self.custom_name_map@.len() ==> self.lobbies@.contains_key(
                #[trigger] self.custom_name_map@[i].1,
            )
        &&& forall|id: u128| #[trigger]
            self.lobbies@.contains_key(id) ==> {
                &&& self.lobbies@[id].unique_id == id
                &&& self.lobbies@[id].id_text@ == hyphenated_text(id)
                &&& uuid_parsed(hyphenated_text(id)) == Some(id)
                &&& exists|i: int|
                    0 <= i < self.custom_name_map@.len() && #[trigger] self.custom_name_map@[i].1
                        == id
            }
    }

    /// No lobby has `id`, and no registered name spells it.
    pub open spec fn id_is_fresh(&self, id: u128) -> bool {
        &&& !self.lobby_ids().contains(id)
        &&& forall|k: Seq<char>| #[trigger] self.names().contains_key(k) ==> uuid_parsed(k) != Some(id)
    }

    /// `id_is_fresh`, read off the entries.
    closed spec fn id_unused(&self, id: u128) -> bool {
        &&& !self.lobbies@.contains_key(id)
        &&& forall|i: int|
            0 <= i < self.custom_name_map@.len() ==> uuid_parsed(#[trigger] self.custom_name_map@[i].0@)
                != Some(id)
    }

    /// Every identifier in use, as an integer: those of the entries, then
    /// those that the entries' names spell (-1 for a name that spells none).
    closed spec fn used_values(&self) -> Seq<int> {
        self.custom_name_map@.map_values(|e: (String, u128)| e.1 as int) + self.custom_name_map@.map_values(
            |e: (String, u128)| spelled(e.0@),
        )
    }

    proof fn lemma_unused_is_fresh(&self, id: u128)
        requires
            self.id_unused(id),
        ensures
            self.id_is_fresh(id),
    {
        assert forall|k: Seq<char>| #[trigger] self.names().contains_key(k) implies uuid_parsed(k)
            != Some(id) by {
            lemma_entries_map_value(self.custom_name_map@, k);
        }
    }

    proof fn lemma_used_value(&self, id: u128)
        requires
            self.wf(),
            !self.id_unused(id),
        ensures
            self.used_values().contains(id as int),
    {
        let s = self.custom_name_map@;
        let n = s.len();
        if self.lobbies@.contains_key(id) {
            let i = choose|i: int| 0 <= i < n && #[trigger] s[i].1 == id;
            assert(self.used_values()[i] == id as int);
        } else {
            let i = choose|i: int| 0 <= i < n && uuid_parsed(#[trigger] s[i].0@) == Some(id);
            assert(self.used_values()[n + i] == id as int);
        }
    }

    /// Whether no lobby has `id` and no registered name spells it.
    fn is_unused(&self, id: u128) -> (r: bool)
        ensures
            r == self.id_unused(id),
    {
        if self.lobbies.contains_key(&id) {
            return false;
        }
        let n = self.custom_name_map.len();
        let mut i: usize = 0;
        while i < n
            invariant
                n == self.custom_name_map@.len(),
                i <= n,
                forall|j: int| 0 <= j < i ==> uuid_parsed(#[trigger] self.custom_name_map@[j].0@) != Some(id),
            decreases n - i,
        {
            if parse_id(self.custom_name_map[i].0.as_str()) == Some(id) {
                return false;
            }
            i = i + 1;
        }
        true
    }

    /// The least identifier not in use. There are at most twice as many
    /// identifiers in use as there are entries, so one of the values up to
    /// that bound is free.
    fn first_unused_id(&self) -> (r: u128)
        requires
            self.wf(),
        ensures
            self.id_unused(r),
    {
        let bound: u128 = 2 * (self.custom_name_map.len() as u128);
        let mut c: u128 = 0;
        while c <= bound
            invariant
                self.wf(),
                bound == 2 * self.custom_name_map@.len(),
                c <= bound + 1,
                forall|k: int| 0 <= k < c ==> #[trigger] self.used_values().contains(k),
            decreases bound + 1 - c,
        {
            if self.is_unused(c) {
                return c;
            }
            proof {
                self.lemma_used_value(c);
            }
            c = c + 1;
        }
        proof {
            let used = self.used_values();
            let range = vstd::set_lib::set_int_range(0, bound + 1);
            vstd::set_lib::lemma_int_range(0, bound + 1);
            used.lemma_cardinality_of_set();
            assert(range.subset_of(used.to_set())) by {
                assert forall|k: int| range.contains(k) implies used.to_set().contains(k) by {
                    assert(used.contains(k));
                }
            }
            vstd::seq_lib::seq_to_set_is_finite(used);
            vstd::set_lib::lemma_len_subset(range, used.to_set());
        }
        c
    }

    /// What a lookup of `key` finds: the identifier that `key` spells, when
    /// it has a lobby; otherwise the identifier that the name `key` stands
    /// for, when that has a lobby.
    pub open spec fn resolve_spec(&self, key: Seq<char>) -> Option<u128> {
        if uuid_parsed(key) is Some && self.lobby_ids().contains(uuid_parsed(key)->0) {
            uuid_parsed(key)
        } else if self.names().contains_key(key) && self.lobby_ids().contains(self.names()[key]) {
            Some(self.names()[key])
        } else {
            None
        }
    }

    /// `after` is what `self` becomes, and `id` what is returned, when
    /// `name` is created or looked up.
    pub open spec fn created_or_got(&self, name: Seq<char>, after: &Self, id: u128) -> bool {
        &&& after.wf()
        &&& match self.resolve_spec(name) {
            Some(found) => {
                &&& id == found
                &&& after.lobby_ids() == self.lobby_ids()
                &&& after.names() == self.names()
            },
            None => {
                &&& self.id_is_fresh(id)
                &&& after.lobby_ids() == self.lobby_ids().insert(id)
                &&& after.names() == self.names().insert(name, id)
            },
        }
    }

    pub fn new() -> (r: LobbyHandler)
        ensures
            r.wf(),
            r.lobby_ids() == Set::<u128>::empty(),
            r.names() == Map::<Seq<char>, u128>::empty(),
    {
        LobbyHandler { lobbies: HashMap::new(), custom_name_map: Vec::new() }
    }

    fn is_uuid_an_active_lobby(&self, lobby_uuid: &u128) -> (r: bool)
        ensures
            r == self.lobby_ids().contains(*lobby_uuid),
    {
        self.lobbies.contains_key(lobby_uuid)
    }

    /// Looks a lobby up by identifier text or by name.
    pub fn get_lobby_uuid(&self, lobby_id: &str) -> (r: Option<u128>)
        requires
            self.wf(),
        ensures
            r == self.resolve_spec(lobby_id@),
    {
        let parsed = parse_id(lobby_id);
        if let Some(uuid) = parsed {
            if self.is_uuid_an_active_lobby(&uuid) {
                return Some(uuid);
            }
        }
        assert(!(parsed is Some && self.lobby_ids().contains(parsed->0)));
        match find_last(&self.custom_name_map, lobby_id) {
            Some(j) => {
                let uuid = self.custom_name_map[j].1;
                if self.is_uuid_an_active_lobby(&uuid) {
                    Some(uuid)
                } else {
                    None
                }
            },
            None => None,
        }
    }

    /// Returns the lobby of `lobby_id` (identifier text or name), creating
    /// one under that name when there is none.
    pub fn create_or_get_lobby_uuid(&mut self, lobby_id: &str) -> (r: u128)
        requires
            old(self).wf(),
        ensures
            old(self).created_or_got(lobby_id@, final(self), r),
            final(self).resolve_spec(lobby_id@) == Some(r),
    {
        if let Some(uuid) = self.get_lobby_uuid(lobby_id) {
            return uuid;
        }
        let drawn = new_random_id();
        let lobby_uuid = if self.is_unused(drawn) {
            drawn
        } else {
            self.first_unused_id()
        };
        proof {
            self.lemma_unused_is_fresh(lobby_uuid);
        }
        let new_lobby = Lobby::new(lobby_uuid);
        let ghost before = self.custom_name_map@;
        let ghost old_lobbies = self.lobbies@;
        self.custom_name_map.push((String::from_str(lobby_id), lobby_uuid));
        self.lobbies.insert(lobby_uuid, new_lobby);
        proof {
            let s = self.custom_name_map@;
            assert(s.drop_last() =~= before);
            assert(self.lobby_ids() =~= old(self).lobby_ids().insert(lobby_uuid));
            assert(s[before.len() as int].1 == lobby_uuid);
            assert forall|id: u128| #[trigger] self.lobbies@.contains_key(id) implies exists|i: int|
                0 <= i < s.len() && #[trigger] s[i].1 == id by {
                if id != lobby_uuid {
                    assert(old_lobbies.contains_key(id));
                    let i = choose|i: int| 0 <= i < before.len() && #[trigger] before[i].1 == id;
                    assert(s[i] == before[i]);
                }
            }
        }
        lobby_uuid
    }

    /// The text of the identifier of a lobby.
    pub fn lobby_id_text(&self, id: u128) -> (r: String)
        requires
            self.wf(),
            self.lobby_ids().contains(id),
        ensures
            r@ == hyphenated_text(id),
    {
        let lobby = self.lobbies.get(&id).unwrap();
        lobby.id_text.clone()
    }
}

/// Every registered name stands for an identifier that has a lobby.
pub proof fn lemma_names_point_to_lobbies(reg: LobbyHandler)
    requires
        reg.wf(),
    ensures
        forall|k: Seq<char>| #[trigger]
            reg.names().contains_key(k) ==> reg.lobby_ids().contains(reg.names()[k]),
{
    assert forall|k: Seq<char>| #[trigger]
        reg.names().contains_key(k) implies reg.lobby_ids().contains(reg.names()[k]) by {
        lemma_entries_map_value(reg.custom_name_map@, k);
    }
}

/// A name that was just created or looked up resolves to the identifier
/// that the call returned.
pub proof fn lemma_created_name_resolves(before: LobbyHandler, name: Seq<char>, after: LobbyHandler, id: u128)
    requires
        before.wf(),
        before.created_or_got(name, &after, id),
    ensures
        after.resolve_spec(name) == Some(id),
{
    if before.resolve_spec(name) is None {
        assert(after.names().contains_key(name) && after.names()[name] == id);
        assert(after.lobby_ids().contains(id));
    } else {
        assert(after.lobby_ids() =~= before.lobby_ids());
    }
}

/// Creating or looking up the same name twice returns the same identifier,
/// and the second call leaves the registry as it was: one lobby per name.
pub proof fn lemma_create_or_get_idempotent(
    s0: LobbyHandler,
    name: Seq<char>,
    s1: LobbyHandler,
    id1: u128,
    s2: LobbyHandler,
    id2: u128,
)
    requires
        s0.wf(),
        s0.created_or_got(name, &s1, id1),
        s1.created_or_got(name, &s2, id2),
    ensures
        id1 == id2,
        s2.lobby_ids() == s1.lobby_ids(),
        s2.names() == s1.names(),
{
    lemma_created_name_resolves(s0, name, s1, id1);
}

/// What a key resolves to stays so across a create-or-get of any name: a
/// new lobby never takes an identifier in use or one that a registered name
/// spells.
pub proof fn lemma_resolution_is_stable(
    before: LobbyHandler,
    name: Seq<char>,
    after: LobbyHandler,
    id: u128,
    key: Seq<char>,
)
    requires
        before.wf(),
        before.created_or_got(name, &after, id),
        before.resolve_spec(key) is Some,
    ensures
        after.resolve_spec(key) == before.resolve_spec(key),
{
    lemma_names_point_to_lobbies(before);
    if before.resolve_spec(name) is Some {
        assert(after.lobby_ids() =~= before.lobby_ids());
    }
}

/// Along any run of create-or-get calls, a key that resolves at the start
/// resolves to the same identifier at the end. With `lemma_created_name_resolves`
/// and `lemma_create_or_get_idempotent`: a name created once is found again,
/// with the same identifier and no new lobby, whatever was created between.
pub proof fn lemma_resolution_is_stable_along(
    states: Seq<LobbyHandler>,
    names: Seq<Seq<char>>,
    ids: Seq<u128>,
    key: Seq<char>,
)
    requires
        states.len() == names.len() + 1,
        ids.len() == names.len(),
        states[0].wf(),
        forall|i: int|
            0 <= i < names.len() ==> #[trigger] states[i].created_or_got(names[i], &states[i + 1], ids[i]),
        states[0].resolve_spec(key) is Some,
    ensures
        states.last().resolve_spec(key) == states[0].resolve_spec(key),
    decreases names.len(),
{
    if names.len() > 0 {
        let n = names.len() - 1;
        let s = states.drop_last();
        assert forall|i: int| 0 <= i < names.drop_last().len() implies #[trigger] s[i].created_or_got(
            names.drop_last()[i],
            &s[i + 1],
            ids.drop_last()[i],
        ) by {
            assert(states[i].created_or_got(names[i], &states[i + 1], ids[i]));
        }
        lemma_resolution_is_stable_along(s, names.drop_last(), ids.drop_last(), key);
        assert(states[n].created_or_got(names[n], &states[n + 1], ids[n]));
        if n > 0 {
            let m = n - 1;
            assert(states[m].created_or_got(names[m], &states[m + 1], ids[m]));
            assert(m + 1 == n);
        }
        assert(states[n].wf());
        lemma_resolution_is_stable(states[n], names[n], states[n + 1], ids[n], key);
    }
}

/// The first and the last of a run of create-or-get calls, both on `name`,
/// return the same identifier, and the last one creates nothing: one lobby
/// per name, whatever was created between.
pub proof fn lemma_create_or_get_idempotent_along(
    states: Seq<LobbyHandler>,
    names: Seq<Seq<char>>,
    ids: Seq<u128>,
    name: Seq<char>,
)
    requires
        names.len() >= 2,
        states.len() == names.len() + 1,
        ids.len() == names.len(),
        states[0].wf(),
        forall|i: int|
            0 <= i < names.len() ==> #[trigger] states[i].created_or_got(names[i], &states[i + 1], ids[i]),
        names[0] == name,
        names.last() == name,
    ensures
        ids.last() == ids[0],
        states.last().lobby_ids() == states[states.len() - 2].lobby_ids(),
        states.last().names() == states[states.len() - 2].names(),
{
    let k = names.len() - 1;
    assert(states[0].created_or_got(names[0], &states[1], ids[0]));
    lemma_created_name_resolves(states[0], name, states[1], ids[0]);
    let mid_states = states.subrange(1, k + 1);
    let mid_names = names.subrange(1, k);
    let mid_ids = ids.subrange(1, k);
    assert forall|i: int| 0 <= i < mid_names.len() implies #[trigger] mid_states[i].created_or_got(
        mid_names[i],
        &mid_states[i + 1],
        mid_ids[i],
    ) by {
        assert(states[i + 1].created_or_got(names[i + 1], &states[i + 1 + 1], ids[i + 1]));
    }
    lemma_resolution_is_stable_along(mid_states, mid_names, mid_ids, name);
    assert(mid_states.last() == states[k]);
    assert(states[k].created_or_got(names[k], &states[k + 1], ids[k]));
    if k > 1 {
        let m = k - 1;
        assert(states[m].created_or_got(names[m], &states[m + 1], ids[m]));
        assert(m + 1 == k);
    }
}

/// A text that spells no identifier with a lobby and is no registered name
/// resolves to nothing.
pub proof fn lemma_unknown_key_resolves_to_nothing(reg: LobbyHandler, key: Seq<char>)
    requires
        reg.wf(),
        uuid_parsed(key) is None || !reg.lobby_ids().contains(uuid_parsed(key)->0),
        !reg.names().contains_key(key),
    ensures
        reg.resolve_spec(key) is None,
{
}

/// The text of the identifier of any lobby resolves to that identifier.
pub proof fn lemma_identifier_text_resolves(reg: LobbyHandler, id: u128)
    requires
        reg.wf(),
        reg.lobby_ids().contains(id),
    ensures
        reg.resolve_spec(hyphenated_text(id)) == Some(id),
{
    assert(reg.lobbies@.contains_key(id));
}

} // verus!
