//! The hot-reloadable rule store.
//!
//! The store holds the current snapshot of the rule set: an immutable
//! name-to-expression-text mapping taken from the config source at a point
//! in time. A reload replaces the snapshot wholesale; a failed reload
//! leaves the prior snapshot untouched, so readers are served stale rules
//! rather than none. Reading the config source itself is I/O and lives
//! outside the library; the store is handed the outcome as plain pairs.

use vstd::prelude::*;

verus! {

/// The first value bound to `k` in the pair sequence, if any.
pub open spec fn assoc(s: Seq<(Seq<char>, Seq<char>)>, k: Seq<char>) -> Option<Seq<char>>
    decreases s.len(),
{
    if s.len() == 0 {
        None
    } else if s[0].0 == k {
        Some(s[0].1)
    } else {
        assoc(s.drop_first(), k)
    }
}

/// The mapping the pair sequence denotes: each name maps to the first
/// value listed for it.
pub open spec fn assoc_map(s: Seq<(Seq<char>, Seq<char>)>) -> Map<Seq<char>, Seq<char>> {
    Map::new(|k: Seq<char>| assoc(s, k) is Some, |k: Seq<char>| assoc(s, k)->0)
}

/// The pair sequence a vector of owned pairs denotes.
pub open spec fn pairs_view(v: Seq<(String, String)>) -> Seq<(Seq<char>, Seq<char>)> {
    v.map_values(|p: (String, String)| (p.0@, p.1@))
}

/// The mapping a reload outcome installs: a successful read of the config
/// source replaces the whole mapping with what was read; a failed read
/// keeps the prior mapping untouched.
pub open spec fn reload_result(
    prior: Map<Seq<char>, Seq<char>>,
    fetched: Result<Seq<(Seq<char>, Seq<char>)>, Seq<char>>,
) -> Map<Seq<char>, Seq<char>> {
    match fetched {
        Ok(pairs) => assoc_map(pairs),
        Err(_) => prior,
    }
}

/// An immutable point-in-time copy of the full rule mapping: rule name to
/// expression text.
pub struct RuleSnapshot {
    entries: Vec<(String, String)>,
}

impl View for RuleSnapshot {
    type V = Map<Seq<char>, Seq<char>>;

    closed spec fn view(&self) -> Map<Seq<char>, Seq<char>> {
        assoc_map(pairs_view(self.entries@))
    }
}

/// `assoc` is unchanged by dropping a prefix that does not bind `k`.
proof fn lemma_assoc_skip(s: Seq<(Seq<char>, Seq<char>)>, k: Seq<char>, i: int)
    requires
        0 <= i <= s.len(),
        forall|j: int| 0 <= j < i ==> (#[trigger] s[j].0) != k,
    ensures
        assoc(s, k) == assoc(s.skip(i), k),
    decreases i,
{
    if i > 0 {
        assert(s.drop_first() =~= s.skip(1));
        lemma_assoc_skip(s.skip(1), k, i - 1);
        assert(s.skip(1).skip(i - 1) =~= s.skip(i));
    } else {
        assert(s.skip(0) =~= s);
    }
}

impl RuleSnapshot {
    /// Builds a snapshot from the pairs read out of the config source, in
    /// their order there; the snapshot maps each name to the first value
    /// listed for it.
    pub fn from_pairs(pairs: Vec<(String, String)>) -> (r: RuleSnapshot)
        ensures
            r@ == assoc_map(pairs_view(pairs@)),
    {
        RuleSnapshot { entries: pairs }
    }

    /// An empty snapshot.
    pub fn empty() -> (r: RuleSnapshot)
        ensures
            r@ == Map::<Seq<char>, Seq<char>>::empty(),
    {
        let r = RuleSnapshot { entries: Vec::new() };
        proof {
            assert(pairs_view(r.entries@) =~= Seq::<(Seq<char>, Seq<char>)>::empty());
            assert(r@ =~= Map::<Seq<char>, Seq<char>>::empty());
        }
        r
    }

    /// The expression text the snapshot binds to `name`, if any.
    pub fn lookup(&self, name: &String) -> (r: Option<&String>)
        ensures
            match r {
                Some(v) => self@.contains_key(name@) && v@ == self@[name@],
                None => !self@.contains_key(name@),
            },
    {
        let ghost s = pairs_view(self.entries@);
        let n = self.entries.len();
        let mut i: usize = 0;
        while i < n
            invariant
                0 <= i <= n,
                n == self.entries@.len(),
                s == pairs_view(self.entries@),
                forall|j: int| 0 <= j < i ==> (#[trigger] s[j].0) != name@,
            decreases n - i,
        {
            proof {
                assert(s[i as int] == (self.entries@[i as int].0@, self.entries@[i as int].1@));
            }
            if self.entries[i].0.eq(name) {
                proof {
                    lemma_assoc_skip(s, name@, i as int);
                    assert(s.skip(i as int)[0] == s[i as int]);
                    assert(assoc(s, name@) == Some(s[i as int].1));
                }
                return Some(&self.entries[i].1);
            }
            i = i + 1;
        }
        proof {
            lemma_assoc_skip(s, name@, n as int);
            assert(s.skip(n as int) =~= Seq::<(Seq<char>, Seq<char>)>::empty());
        }
        None
    }

    /// A copy of the snapshot with the same mapping.
    pub fn duplicate(&self) -> (r: RuleSnapshot)
        ensures
            r@ == self@,
    {
        let n = self.entries.len();
        let mut copied: Vec<(String, String)> = Vec::new();
        let mut i: usize = 0;
        while i < n
            invariant
                0 <= i <= n,
                n == self.entries@.len(),
                copied@ == self.entries@.take(i as int),
            decreases n - i,
        {
            let name = self.entries[i].0.clone();
            let text = self.entries[i].1.clone();
            copied.push((name, text));
            proof {
                assert(copied@ =~= self.entries@.take(i + 1));
            }
            i = i + 1;
        }
        proof {
            assert(copied@ =~= self.entries@);
        }
        RuleSnapshot { entries: copied }
    }
}

/// The rule store: the holder of the current snapshot, replaced wholesale
/// by each successful reload.
pub struct RuleStore {
    snap: RuleSnapshot,
}

impl View for RuleStore {
    type V = Map<Seq<char>, Seq<char>>;

    closed spec fn view(&self) -> Map<Seq<char>, Seq<char>> {
        self.snap@
    }
}

impl RuleStore {
    /// A store with no rules yet; the first load fills it.
    pub fn new() -> (r: RuleStore)
        ensures
            r@ == Map::<Seq<char>, Seq<char>>::empty(),
    {
        RuleStore { snap: RuleSnapshot::empty() }
    }

    /// Applies the outcome of reading the config source. A successful read
    /// installs the mapping it denotes, whole; a failed read changes
    /// nothing and hands the reason back, so the caller can log it while
    /// readers keep the prior rules.
    pub fn load_rules(&mut self, fetched: Result<Vec<(String, String)>, String>) -> (r: Result<
        (),
        String,
    >)
        ensures
            final(self)@ == reload_result(
                old(self)@,
                match fetched {
                    Ok(pairs) => Ok(pairs_view(pairs@)),
                    Err(e) => Err(e@),
                },
            ),
            r is Ok <==> fetched is Ok,
            fetched matches Err(e) ==> r matches Err(m) && m == e,
    {
        match fetched {
            Ok(pairs) => {
                self.snap = RuleSnapshot::from_pairs(pairs);
                Ok(())
            }
            Err(e) => Err(e),
        }
    }

    /// The current snapshot, copied out for a reader; later reloads do not
    /// touch a copy already handed out.
    pub fn get_rules(&self) -> (r: RuleSnapshot)
        ensures
            r@ == self@,
    {
        self.snap.duplicate()
    }
}

/// A reload is atomic from a reader's point of view: the mapping a
/// successful reload installs is determined by the fetched pairs alone,
/// whatever mapping was in place before. Two stores that reload the same
/// pairs over different prior mappings agree on every name, so no read can
/// observe a mixture of prior and fetched entries. A failed reload keeps
/// the prior mapping intact, whole.
pub proof fn lemma_reload_atomic(
    prior1: Map<Seq<char>, Seq<char>>,
    prior2: Map<Seq<char>, Seq<char>>,
    pairs: Seq<(Seq<char>, Seq<char>)>,
    err: Seq<char>,
)
    ensures
        reload_result(prior1, Ok(pairs)) == reload_result(prior2, Ok(pairs)),
        reload_result(prior1, Err(err)) == prior1,
{
}

} // verus!
