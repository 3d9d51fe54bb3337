//! MCP session lifecycle: the state of each client session and the table of
//! live sessions.

use vstd::prelude::*;

use vstd::string::StringExecFns;

use crate::text::text_equal;

verus! {

/// State of an MCP session during its lifecycle.
#[derive(Debug, Clone, Copy, PartialEq, Eq, Structural)]
pub enum SessionState {
    /// Connection established, waiting for `initialize`.
    Uninitialized,
    /// `initialize` received, waiting for `notifications/initialized`.
    Initializing,
    /// Fully initialized: normal operation.
    Ready,
}

impl Default for SessionState {
    fn default() -> (r: Self)
        ensures
            r == SessionState::Uninitialized,
    {
        SessionState::Uninitialized
    }
}

/// What the server tracks of one session besides its message channel.
#[derive(Debug, Clone, Copy, PartialEq, Eq, Structural)]
pub struct SessionInfo {
    /// Lifecycle state.
    pub state: SessionState,
    /// Whether a passive SSE stream (`GET /mcp`) is currently open.
    pub sse_active: bool,
    /// Whether the stream's receiving end is still waiting to be claimed.
    pub stream_unclaimed: bool,
}

/// The sessions described by a list of (id, info) entries; a later entry for an id
/// overrides an earlier one.
pub open spec fn entries_map(s: Seq<(String, SessionInfo)>) -> Map<Seq<char>, SessionInfo>
    decreases s.len(),
{
    if s.len() == 0 {
        Map::empty()
    } else {
        entries_map(s.drop_last()).insert(s.last().0@, s.last().1)
    }
}

/// Entries that are not for `key`.
pub open spec fn other_than(key: Seq<char>) -> spec_fn((String, SessionInfo)) -> bool {
    |e: (String, SessionInfo)| e.0@ != key
}

/// Removing every entry for `key` removes `key` from the sessions.
proof fn lemma_entries_without(s: Seq<(String, SessionInfo)>, key: Seq<char>)
    ensures
        entries_map(s.filter(other_than(key))) == entries_map(s).remove(key),
    decreases s.len(),
{
    let p = other_than(key);
    if s.len() == 0 {
        reveal(Seq::filter);
    } else {
        let d = s.drop_last();
        let x = s.last();
        lemma_entries_without(d, key);
        assert(s =~= d.push(x));
        d.lemma_filter_push(x, p);
        if x.0@ != key {
            assert(d.filter(p).push(x).drop_last() =~= d.filter(p));
        }
    }
}

/// The table of live sessions, keyed by session id.
#[derive(Debug)]
pub struct SessionTable {
    entries: Vec<(String, SessionInfo)>,
}

impl View for SessionTable {
    type V = Map<Seq<char>, SessionInfo>;

    closed spec fn view(&self) -> Map<Seq<char>, SessionInfo> {
        entries_map(self.entries@)
    }
}

impl SessionTable {
    /// An empty table.
    pub fn new() -> (r: Self)
        ensures
            r@ == Map::<Seq<char>, SessionInfo>::empty(),
    {
        SessionTable { entries: Vec::new() }
    }

    /// What the table records of session `id`.
    pub fn get(&self, id: &str) -> (r: Option<SessionInfo>)
        ensures
            match r {
                Some(info) => self@.dom().contains(id@) && self@[id@] == info,
                None => !self@.dom().contains(id@),
            },
    {
        let mut i: usize = self.entries.len();
        assert(self.entries@.take(i as int) =~= self.entries@);
        while i > 0
            invariant
                i <= self.entries.len(),
                self@ == entries_map(self.entries@),
                self@.dom().contains(id@) == entries_map(self.entries@.take(i as int)).dom().contains(id@),
                self@.dom().contains(id@) ==> self@[id@] == entries_map(self.entries@.take(i as int))[id@],
            decreases i,
        {
            let j = i - 1;
            assert(self.entries@.take(i as int).drop_last() =~= self.entries@.take(j as int));
            if text_equal(self.entries[j].0.as_str(), id) {
                return Some(self.entries[j].1);
            }
            i = j;
        }
        None
    }

    /// Whether session `id` exists.
    pub fn contains(&self, id: &str) -> (r: bool)
        ensures
            r == self@.dom().contains(id@),
    {
        self.get(id).is_some()
    }

    /// Removes session `id`; tells whether it existed.
    pub fn remove(&mut self, id: &str) -> (r: bool)
        ensures
            final(self)@ == old(self)@.remove(id@),
            r == old(self)@.dom().contains(id@),
    {
        let existed = self.contains(id);
        let ghost p = other_than(id@);
        let mut kept: Vec<(String, SessionInfo)> = Vec::new();
        let mut i: usize = 0;
        while i < self.entries.len()
            invariant
                i <= self.entries.len(),
                p == other_than(id@),
                kept@ == self.entries@.take(i as int).filter(p),
            decreases self.entries.len() - i,
        {
            proof {
                assert(self.entries@.take(i + 1) =~= self.entries@.take(i as int).push(self.entries@[i as int]));
                self.entries@.take(i as int).lemma_filter_push(self.entries@[i as int], p);
            }
            if !text_equal(self.entries[i].0.as_str(), id) {
                let k = self.entries[i].0.clone();
                kept.push((k, self.entries[i].1));
            }
            i = i + 1;
        }
        proof {
            assert(self.entries@.take(self.entries.len() as int) =~= self.entries@);
            lemma_entries_without(self.entries@, id@);
        }
        self.entries = kept;
        existed
    }

    /// Records session `id` with `info`, replacing any earlier record of it.
    pub fn insert(&mut self, id: String, info: SessionInfo)
        ensures
            final(self)@ == old(self)@.insert(id@, info),
    {
        self.remove(id.as_str());
        let ghost before = self.entries@;
        self.entries.push((id, info));
        proof {
            assert(self.entries@.drop_last() =~= before);
        }
    }

    /// Sets the lifecycle state of session `id`, if it exists.
    pub fn set_state(&mut self, id: &str, state: SessionState)
        ensures
            old(self)@.dom().contains(id@) ==> final(self)@ == old(self)@.insert(
                id@,
                SessionInfo { state, ..old(self)@[id@] },
            ),
            !old(self)@.dom().contains(id@) ==> final(self)@ == old(self)@,
    {
        match self.get(id) {
            Some(info) => {
                let updated = SessionInfo { state, ..info };
                self.insert(String::from_str(id), updated);
            },
            None => {},
        }
    }

    /// Removes every session.
    pub fn clear(&mut self)
        ensures
            final(self)@ == Map::<Seq<char>, SessionInfo>::empty(),
    {
        self.entries = Vec::new();
    }
}

/// Whether a session in `state` may handle `method`: before `initialize` only
/// `initialize` and `ping`; while initializing only `notifications/initialized` and
/// `ping`; once ready, everything.
pub open spec fn lifecycle_allows(state: SessionState, method: Seq<char>) -> bool {
    match state {
        SessionState::Uninitialized => method == "initialize"@ || method == "ping"@,
        SessionState::Initializing => method == "notifications/initialized"@ || method == "ping"@,
        SessionState::Ready => true,
    }
}

/// The detail of the refusal of a method that `state` does not allow.
pub open spec fn lifecycle_refusal(state: SessionState) -> Seq<char> {
    match state {
        SessionState::Uninitialized => "Server not initialized. Send 'initialize' first."@,
        SessionState::Initializing => "Initialization in progress. Send 'notifications/initialized' to complete."@,
        SessionState::Ready => Seq::empty(),
    }
}

/// Decides whether a session in `state` may handle `method`.
pub fn allows(state: SessionState, method: &str) -> (r: bool)
    ensures
        r == lifecycle_allows(state, method@),
{
    match state {
        SessionState::Uninitialized => text_equal(method, "initialize") || text_equal(method, "ping"),
        SessionState::Initializing => text_equal(method, "notifications/initialized") || text_equal(method, "ping"),
        SessionState::Ready => true,
    }
}

/// The refusal detail for `state` (see [`lifecycle_refusal`]).
pub fn refusal(state: SessionState) -> (r: String)
    ensures
        r@ == lifecycle_refusal(state),
{
    match state {
        SessionState::Uninitialized => String::from_str("Server not initialized. Send 'initialize' first."),
        SessionState::Initializing => String::from_str(
            "Initialization in progress. Send 'notifications/initialized' to complete.",
        ),
        SessionState::Ready => String::new(),
    }
}

/// `s` is the text of a random (version 4) UUID in hyphenated lower-case form:
/// 36 characters, hyphens at positions 8, 13, 18 and 23, lower-case hexadecimal
/// digits elsewhere, the version digit `4` at position 14 and one of `8`, `9`, `a`,
/// `b` (the variant) at position 19.
pub open spec fn is_uuid_v4_text(s: Seq<char>) -> bool {
    &&& s.len() == 36
    &&& forall|i: int| 0 <= i < 36 ==> if i == 8 || i == 13 || i == 18 || i == 23 {
        #[trigger] s[i] == '-'
    } else {
        ('0' <= s[i] && s[i] <= '9') || ('a' <= s[i] && s[i] <= 'f')
    }
    &&& s[14] == '4'
    &&& (s[19] == '8' || s[19] == '9' || s[19] == 'a' || s[19] == 'b')
}

/// A fresh session id: calls `uuid::Uuid::new_v4()` and renders it with
/// `to_string` (its `Display`, the hyphenated lower-case form). The id is random:
/// nothing is claimed of it beyond its form (in particular not that it differs from
/// ids in use).
#[verifier::external_body]
pub(crate) fn new_session_id() -> (r: String)
    ensures
        is_uuid_v4_text(r@),
{
    uuid::Uuid::new_v4().to_string()
}

} // verus!
