use vstd::prelude::*;

verus! {

/// How far a viewer got in one title.
#[derive(Debug)]
pub struct PlaybackSession {
    imdb_id: String,
    timestamp: u64,
    watched: bool,
}

impl PlaybackSession {
    pub fn new(imdb_id: String, timestamp: u64, watched: bool) -> (r: PlaybackSession)
        ensures
            r.id() == imdb_id@,
            r.timestamp_spec() == timestamp,
            r.watched_spec() == watched,
    {
        PlaybackSession { imdb_id, timestamp, watched }
    }

    /// The title identifier that keys the record.
    pub closed spec fn id(&self) -> Seq<char> {
        self.imdb_id@
    }

    pub closed spec fn timestamp_spec(&self) -> u64 {
        self.timestamp
    }

    pub closed spec fn watched_spec(&self) -> bool {
        self.watched
    }

    pub fn imdb_id(&self) -> (r: &String)
        ensures
            r@ == self.id(),
    {
        &self.imdb_id
    }

    pub fn timestamp(&self) -> (r: u64)
        ensures
            r == self.timestamp_spec(),
    {
        self.timestamp
    }

    pub fn watched(&self) -> (r: bool)
        ensures
            r == self.watched_spec(),
    {
        self.watched
    }
}

impl Clone for PlaybackSession {
    fn clone(&self) -> (r: Self)
        ensures
            r == *self,
    {
        PlaybackSession { imdb_id: self.imdb_id.clone(), timestamp: self.timestamp, watched: self.watched }
    }
}

/// The records as a map from title identifier; a later record of the same
/// identifier hides an earlier one.
pub open spec fn records_map(s: Seq<PlaybackSession>) -> Map<Seq<char>, PlaybackSession>
    decreases s.len(),
{
    if s.len() == 0 {
        Map::empty()
    } else {
        records_map(s.drop_last()).insert(s.last().id(), s.last())
    }
}

/// No two records share an identifier.
pub open spec fn ids_unique(s: Seq<PlaybackSession>) -> bool {
    forall|i: int, j: int| 0 <= i < j < s.len() ==> s[i].id() != s[j].id()
}

/// The watch-progress store: at most one record per title identifier.
///
/// The records are kept in a vector whose identifiers are unique, seen as a
/// map from identifier to record. vstd states what a hash map does only for
/// keys whose hashing and equality it knows, such as integers; with `String`
/// keys the lookups and inserts of this store could not be proved.
#[derive(Debug)]
pub struct PlaybackSessions {
    sessions: Vec<PlaybackSession>,
}

impl View for PlaybackSessions {
    type V = Map<Seq<char>, PlaybackSession>;

    closed spec fn view(&self) -> Map<Seq<char>, PlaybackSession> {
        records_map(self.sessions@)
    }
}

proof fn lemma_map_keys(s: Seq<PlaybackSession>, k: Seq<char>)
    ensures
        records_map(s).contains_key(k) <==> exists|i: int| 0 <= i < s.len() && s[i].id() == k,
    decreases s.len(),
{
    if s.len() > 0 {
        lemma_map_keys(s.drop_last(), k);
        if records_map(s.drop_last()).contains_key(k) {
            let i = choose|i: int| 0 <= i < s.drop_last().len() && s.drop_last()[i].id() == k;
            assert(s[i].id() == k);
        }
        if exists|i: int| 0 <= i < s.len() && s[i].id() == k {
            let i = choose|i: int| 0 <= i < s.len() && s[i].id() == k;
            if i < s.len() - 1 {
                assert(s.drop_last()[i].id() == k);
            }
        }
    }
}

proof fn lemma_map_at(s: Seq<PlaybackSession>, i: int)
    requires
        ids_unique(s),
        0 <= i < s.len(),
    ensures
        records_map(s).contains_key(s[i].id()),
        records_map(s)[s[i].id()] == s[i],
    decreases s.len(),
{
    if i < s.len() - 1 {
        lemma_map_at(s.drop_last(), i);
    }
}

proof fn lemma_map_update(s: Seq<PlaybackSession>, i: int, x: PlaybackSession)
    requires
        ids_unique(s),
        0 <= i < s.len(),
        s[i].id() == x.id(),
    ensures
        records_map(s.update(i, x)) == records_map(s).insert(x.id(), x),
    decreases s.len(),
{
    let t = s.update(i, x);
    if i == s.len() - 1 {
        assert(t.drop_last() == s.drop_last());
        lemma_map_keys(s.drop_last(), x.id());
        if records_map(s.drop_last()).contains_key(x.id()) {
            let j = choose|j: int| 0 <= j < s.drop_last().len() && s.drop_last()[j].id() == x.id();
            assert(s[j].id() == s[i].id());
        }
        assert(records_map(t) == records_map(s).insert(x.id(), x));
    } else {
        lemma_map_update(s.drop_last(), i, x);
        assert(t.drop_last() == s.drop_last().update(i, x));
        assert(s.last().id() != x.id());
        assert(records_map(t) == records_map(s).insert(x.id(), x));
    }
}

impl PlaybackSessions {
    /// The store's invariant: identifiers are unique.
    pub closed spec fn wf(&self) -> bool {
        ids_unique(self.sessions@)
    }

    /// An empty store.
    pub fn new() -> (r: PlaybackSessions)
        ensures
            r.wf(),
            r@ == Map::<Seq<char>, PlaybackSession>::empty(),
    {
        PlaybackSessions { sessions: Vec::new() }
    }

    /// Saves `session` under its identifier, replacing any earlier record of it.
    pub fn insert(&mut self, session: PlaybackSession)
        requires
            old(self).wf(),
        ensures
            final(self).wf(),
            final(self)@ == old(self)@.insert(session.id(), session),
    {
        let ghost s0 = self.sessions@;
        let mut i: usize = 0;
        while i < self.sessions.len()
            invariant
                self.sessions@ == s0,
                old(self).sessions@ == s0,
                ids_unique(s0),
                i <= s0.len(),
                forall|j: int| 0 <= j < i ==> s0[j].id() != session.id(),
            decreases s0.len() - i,
        {
            if self.sessions[i].imdb_id == session.imdb_id {
                proof {
                    lemma_map_update(s0, i as int, session);
                }
                self.sessions.set(i, session);
                assert(self.sessions@ == s0.update(i as int, session));
                assert forall|a: int, b: int| 0 <= a < b < self.sessions@.len() implies
                    self.sessions@[a].id() != self.sessions@[b].id() by {
                    assert(s0[a].id() != s0[b].id());
                }
                return;
            }
            i = i + 1;
        }
        self.sessions.push(session);
        assert(self.sessions@.drop_last() == s0);
    }

    /// The record saved under `imdb_id`, if there is one.
    pub fn get(&self, imdb_id: &String) -> (r: Option<PlaybackSession>)
        requires
            self.wf(),
        ensures
            r is Some <==> self@.contains_key(imdb_id@),
            r is Some ==> r->Some_0 == self@[imdb_id@],
    {
        let mut i: usize = 0;
        while i < self.sessions.len()
            invariant
                self.wf(),
                i <= self.sessions@.len(),
                forall|j: int| 0 <= j < i ==> self.sessions@[j].id() != imdb_id@,
            decreases self.sessions@.len() - i,
        {
            if self.sessions[i].imdb_id == *imdb_id {
                proof {
                    lemma_map_at(self.sessions@, i as int);
                }
                return Some(self.sessions[i].clone());
            }
            i = i + 1;
        }
        proof {
            lemma_map_keys(self.sessions@, imdb_id@);
        }
        None
    }

    /// Every record, each once, in the order its identifier was first saved.
    pub fn records(&self) -> (r: &Vec<PlaybackSession>)
        requires
            self.wf(),
        ensures
            ids_unique(r@),
            forall|i: int| 0 <= i < r@.len() ==> self@.contains_key(#[trigger] r@[i].id()) && self@[r@[i].id()] == r@[i],
            forall|k: Seq<char>| self@.contains_key(k) <==> exists|i: int| 0 <= i < r@.len() && r@[i].id() == k,
    {
        proof {
            assert forall|i: int| 0 <= i < self.sessions@.len() implies self@.contains_key(#[trigger] self.sessions@[i].id())
                && self@[self.sessions@[i].id()] == self.sessions@[i] by {
                lemma_map_at(self.sessions@, i);
            }
            assert forall|k: Seq<char>| self@.contains_key(k) <==> exists|i: int| 0 <= i < self.sessions@.len() && self.sessions@[i].id() == k by {
                lemma_map_keys(self.sessions@, k);
            }
        }
        &self.sessions
    }
}

impl Default for PlaybackSessions {
    fn default() -> (r: PlaybackSessions)
        ensures
            r.wf(),
            r@ == Map::<Seq<char>, PlaybackSession>::empty(),
    {
        PlaybackSessions::new()
    }
}

} // verus!
