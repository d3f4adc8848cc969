//! OAuth redirect callback: PKCE verifiers kept by `state` until the
//! callback uses them.

use vstd::prelude::*;

use crate::error::SdkError;

verus! {

/// Query parameters on `redirect_uri` after a successful `/oauth2/authorize`.
#[derive(Debug, Clone)]
pub struct OAuthCallbackQuery {
    pub code: String,
    pub state: String,
}

/// In-memory map from OAuth `state` to PKCE `code_verifier` (one entry per
/// state; a verifier is removed when it is taken).
pub struct MemoryPkceStateStore {
    entries: Vec<(String, String)>,
    contents: Ghost<Map<Seq<char>, Seq<char>>>,
}

/// Every state occurs once among `entries`, and they hold exactly the map `m`.
spec fn entries_hold(entries: Seq<(String, String)>, m: Map<Seq<char>, Seq<char>>) -> bool {
    &&& forall|i: int, j: int|
        0 <= i < j < entries.len() ==> #[trigger] entries[i].0@ != #[trigger] entries[j].0@
    &&& forall|i: int|
        0 <= i < entries.len() ==> m.contains_key(#[trigger] entries[i].0@) && m[entries[i].0@]
            == entries[i].1@
    &&& forall|k: Seq<char>|
        #[trigger] m.contains_key(k) ==> exists|i: int|
            0 <= i < entries.len() && #[trigger] entries[i].0@ == k
}

/// Position of the entry for `state`, if there is one.
fn position(entries: &Vec<(String, String)>, state: &str) -> (r: Option<usize>)
    ensures
        r matches Some(i) ==> i < entries@.len() && entries@[i as int].0@ == state@,
        r is None ==> forall|j: int| 0 <= j < entries@.len() ==> #[trigger] entries@[j].0@ != state@,
{
    let n = entries.len();
    let mut i: usize = 0;
    while i < n
        invariant
            n == entries@.len(),
            i <= n,
            forall|j: int| 0 <= j < i ==> #[trigger] entries@[j].0@ != state@,
        decreases n - i,
    {
        if crate::text::str_eq(entries[i].0.as_str(), state) {
            return Some(i);
        }
        i = i + 1;
    }
    None
}

impl MemoryPkceStateStore {
    /// The verifiers held, by state.
    pub closed spec fn view(&self) -> Map<Seq<char>, Seq<char>> {
        self.contents@
    }

    /// The entries hold exactly the map, each state once.
    #[verifier::type_invariant]
    spec fn entries_match(self) -> bool {
        entries_hold(self.entries@, self.contents@)
    }

    /// An empty store.
    pub fn new() -> (s: MemoryPkceStateStore)
        ensures
            s@ == Map::<Seq<char>, Seq<char>>::empty(),
    {
        MemoryPkceStateStore { entries: Vec::new(), contents: Ghost(Map::empty()) }
    }

    /// Keeps `code_verifier` for `oauth_state`, replacing an earlier one.
    pub fn insert(&mut self, oauth_state: String, code_verifier: String)
        ensures
            final(self)@ == old(self)@.insert(oauth_state@, code_verifier@),
    {
        let mut held = MemoryPkceStateStore::new();
        std::mem::swap(self, &mut held);
        proof {
            use_type_invariant(&held);
        }
        let ghost m = held.contents@;
        let ghost k = oauth_state@;
        let ghost v = code_verifier@;
        let mut entries = held.entries;
        let ghost old_entries = entries@;
        let ghost idx: int;
        match position(&entries, oauth_state.as_str()) {
            Some(i) => {
                entries.set(i, (oauth_state, code_verifier));
                proof {
                    idx = i as int;
                }
            },
            None => {
                proof {
                    assert forall|key: Seq<char>| #[trigger] m.contains_key(key) implies key != k by {
                        let j = choose|j: int| 0 <= j < old_entries.len() && #[trigger] old_entries[j].0@ == key;
                    }
                }
                entries.push((oauth_state, code_verifier));
                proof {
                    idx = old_entries.len() as int;
                }
            },
        }
        let ghost m2 = m.insert(k, v);
        proof {
            assert(entries@[idx].0@ == k);
            assert forall|key: Seq<char>| #[trigger] m2.contains_key(key) implies exists|i: int|
                0 <= i < entries@.len() && #[trigger] entries@[i].0@ == key by {
                if key == k {
                    assert(entries@[idx].0@ == key);
                } else {
                    let i = choose|i: int| 0 <= i < old_entries.len() && #[trigger] old_entries[i].0@ == key;
                    assert(entries@[i] == old_entries[i]);
                }
            }
            assert(entries_hold(entries@, m2));
        }
        *self = MemoryPkceStateStore { entries, contents: Ghost(m2) };
    }

    /// Removes and returns the verifier kept for `oauth_state`.
    pub fn take_code_verifier(&mut self, oauth_state: &str) -> (r: Option<String>)
        ensures
            final(self)@ == old(self)@.remove(oauth_state@),
            old(self)@.contains_key(oauth_state@) ==> (r matches Some(v) && v@ == old(self)@[oauth_state@]),
            !old(self)@.contains_key(oauth_state@) ==> r is None,
    {
        let mut held = MemoryPkceStateStore::new();
        std::mem::swap(self, &mut held);
        proof {
            use_type_invariant(&held);
        }
        let ghost m = held.contents@;
        let mut entries = held.entries;
        let ghost old_entries = entries@;
        let ghost m2 = m.remove(oauth_state@);
        match position(&entries, oauth_state) {
            Some(i) => {
                let (_, v) = entries.remove(i);
                proof {
                    assert forall|a: int, b: int|
                        0 <= a < b < entries@.len() implies #[trigger] entries@[a].0@
                        != #[trigger] entries@[b].0@ by {
                        let oa = if a < i { a } else { a + 1 };
                        let ob = if b < i { b } else { b + 1 };
                        assert(entries@[a] == old_entries[oa]);
                        assert(entries@[b] == old_entries[ob]);
                    }
                    assert forall|a: int|
                        0 <= a < entries@.len() implies m2.contains_key(#[trigger] entries@[a].0@)
                        && m2[entries@[a].0@] == entries@[a].1@ by {
                        let oa = if a < i { a } else { a + 1 };
                        assert(entries@[a] == old_entries[oa]);
                        assert(old_entries[oa].0@ != old_entries[i as int].0@);
                    }
                    assert forall|key: Seq<char>| #[trigger] m2.contains_key(key) implies exists|a: int|
                        0 <= a < entries@.len() && #[trigger] entries@[a].0@ == key by {
                        let o = choose|o: int| 0 <= o < old_entries.len() && #[trigger] old_entries[o].0@ == key;
                        assert(o != i);
                        let a = if o < i { o } else { o - 1 };
                        assert(entries@[a] == old_entries[o]);
                    }
                }
                *self = MemoryPkceStateStore { entries, contents: Ghost(m2) };
                Some(v)
            },
            None => {
                proof {
                    if m.contains_key(oauth_state@) {
                        let j = choose|j: int| 0 <= j < old_entries.len() && #[trigger] old_entries[j].0@ == oauth_state@;
                    }
                    assert(m2 =~= m);
                }
                *self = MemoryPkceStateStore { entries, contents: Ghost(m2) };
                None
            },
        }
    }
}

/// The verifier found for a callback's `state`, or `PkceStateMissing`.
pub fn code_verifier_for_callback(found: Option<String>) -> (r: Result<String, SdkError>)
    ensures
        found matches Some(v) ==> r == Ok::<String, SdkError>(v),
        found is None ==> r matches Err(SdkError::PkceStateMissing),
{
    match found {
        Some(v) => Ok(v),
        None => Err(SdkError::PkceStateMissing),
    }
}

/// A verifier kept for a state is handed out once: taking it after an
/// insert gives the inserted verifier, and a second take finds nothing.
pub proof fn lemma_insert_then_take_once(
    m: Map<Seq<char>, Seq<char>>,
    state: Seq<char>,
    verifier: Seq<char>,
)
    ensures
        m.insert(state, verifier).contains_key(state),
        m.insert(state, verifier)[state] == verifier,
        !m.insert(state, verifier).remove(state).contains_key(state),
{
}

/// Inserting or taking the verifier of one state leaves other states alone.
pub proof fn lemma_other_states_untouched(
    m: Map<Seq<char>, Seq<char>>,
    state: Seq<char>,
    other: Seq<char>,
    verifier: Seq<char>,
)
    requires
        state != other,
    ensures
        m.insert(state, verifier).contains_key(other) == m.contains_key(other),
        m.insert(state, verifier).contains_key(other) ==> m.insert(state, verifier)[other] == m[other],
        m.remove(state).contains_key(other) == m.contains_key(other),
        m.remove(state).contains_key(other) ==> m.remove(state)[other] == m[other],
{
}

} // verus!
