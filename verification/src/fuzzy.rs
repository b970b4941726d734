//! Keeping the worker that scores directories for the spawn dialog up to date,
//! without telling it anything twice.

use vstd::prelude::*;

verus! {

/// What was last told about each host.
pub struct Memo<V> {
    pub entries: Vec<(String, V)>,
}

/// The value of the first entry for `key`.
pub open spec fn first_entry<V>(entries: Seq<(String, V)>, key: Seq<char>) -> Option<V>
    decreases entries.len(),
{
    if entries.len() == 0 {
        None
    } else if entries[0].0@ == key {
        Some(entries[0].1)
    } else {
        first_entry(entries.skip(1), key)
    }
}

impl<V> View for Memo<V> {
    type V = Map<Seq<char>, V>;

    open spec fn view(&self) -> Map<Seq<char>, V> {
        Map::new(
            |key: Seq<char>| first_entry(self.entries@, key) is Some,
            |key: Seq<char>| first_entry(self.entries@, key)->0,
        )
    }
}

proof fn entries_after_push<V>(entries: Seq<(String, V)>, entry: (String, V), key: Seq<char>)
    ensures
        first_entry(entries.push(entry), key) == match first_entry(entries, key) {
            Some(value) => Some(value),
            None => if entry.0@ == key {
                Some(entry.1)
            } else {
                None
            },
        },
    decreases entries.len(),
{
    reveal_with_fuel(first_entry, 2);
    if entries.len() > 0 {
        entries_after_push(entries.skip(1), entry, key);
        assert(entries.push(entry).skip(1) =~= entries.skip(1).push(entry));
    } else {
        assert(entries.push(entry).skip(1) =~= Seq::<(String, V)>::empty());
    }
}

impl<V> Default for Memo<V> {
    fn default() -> (r: Memo<V>)
        ensures
            r@ == Map::<Seq<char>, V>::empty(),
    {
        let r = Memo { entries: Vec::new() };
        assert(r@ =~= Map::<Seq<char>, V>::empty());
        r
    }
}

impl<V> Memo<V> {
    /// What was last told about `key`, if anything was.
    pub fn get(&self, key: &String) -> (r: Option<&V>)
        ensures
            match r {
                Some(value) => self@.contains_key(key@) && *value == self@[key@],
                None => !self@.contains_key(key@),
            },
    {
        let entries = &self.entries;
        assert(entries@.skip(0) =~= entries@);
        for i in 0..entries.len()
            invariant
                entries@ == self.entries@,
                first_entry(entries@.skip(i as int), key@) == first_entry(entries@, key@),
        {
            let ghost rest = entries@.skip(i as int);
            assert(rest[0] == entries@[i as int]);
            assert(rest.skip(1) =~= entries@.skip(i + 1));
            if entries[i].0 == *key {
                return Some(&entries[i].1);
            }
        }
        None
    }

    /// Whether nothing was told about anything.
    pub fn is_empty(&self) -> (r: bool)
        ensures
            r == (self@ == Map::<Seq<char>, V>::empty()),
    {
        if self.entries.len() > 0 {
            proof {
                let key = self.entries@[0].0@;
                assert(self@.contains_key(key));
                assert(!Map::<Seq<char>, V>::empty().contains_key(key));
            }
            false
        } else {
            assert(self@ =~= Map::<Seq<char>, V>::empty());
            true
        }
    }

    /// Forgets what was told about `key`.
    pub fn remove(&mut self, key: &String)
        ensures
            final(self)@ == old(self)@.remove(key@),
    {
        let ghost before = self.entries@;
        let mut kept: Vec<(String, V)> = Vec::new();
        let mut rest: Vec<(String, V)> = Vec::new();
        std::mem::swap(&mut rest, &mut self.entries);
        while rest.len() > 0
            invariant
                forall|k: Seq<char>|
                    #![trigger first_entry(before, k)]
                    first_entry(before, k) == match first_entry(kept@, k) {
                        Some(value) => Some(value),
                        None => first_entry(rest@, k),
                    } || k == key@,
                first_entry(kept@, key@) is None,
            decreases rest@.len(),
        {
            let ghost kept_before = kept@;
            let ghost rest_before = rest@;
            let entry = rest.remove(0);
            assert(rest_before.skip(1) =~= rest@);
            if entry.0 != *key {
                kept.push(entry);
                proof {
                    assert forall|k: Seq<char>| #![trigger first_entry(kept@, k)] first_entry(
                        kept@,
                        k,
                    ) == match first_entry(kept_before, k) {
                        Some(value) => Some(value),
                        None => if entry.0@ == k {
                            Some(entry.1)
                        } else {
                            None
                        },
                    } by {
                        entries_after_push(kept_before, entry, k);
                    }
                }
            }
        }
        self.entries = kept;
        assert forall|k: Seq<char>| k != key@ implies #[trigger] first_entry(before, k)
            == first_entry(self.entries@, k) by {}
        assert forall|k: Seq<char>| self@.contains_key(k) == old(self)@.remove(key@).contains_key(
            k,
        ) by {
            assert(first_entry(before, k) == first_entry(before, k));
        }
        assert(self@ =~= old(self)@.remove(key@));
    }

    /// Records what was told about `key`.
    pub fn insert(&mut self, key: String, value: V)
        ensures
            final(self)@ == old(self)@.insert(key@, value),
    {
        self.remove(&key);
        let ghost before = self.entries@;
        let ghost removed = self@;
        let ghost name = key@;
        self.entries.push((key, value));
        assert forall|k: Seq<char>| #[trigger] first_entry(self.entries@, k) == match first_entry(
            before,
            k,
        ) {
            Some(v) => Some(v),
            None => if name == k {
                Some(value)
            } else {
                None
            },
        } by {
            entries_after_push(before, (key, value), k);
        }
        assert(!removed.contains_key(name));
        assert(self@ =~= removed.insert(name, value));
        assert(self@ =~= old(self)@.insert(name, value));
    }
}

/// What the spawn dialog wants of the worker.
pub enum FuzzyUi {
    /// The dialog is closed.
    Closed,
    /// Nothing: it is not searching, or nothing was typed.
    Idle,
    /// To score the directories of `host` by `query`.
    Asking { host: String, query: String },
}

/// What to do about the worker.
pub struct FuzzyDispatch<D> {
    /// The results to hand to the dialog, in order.
    pub results: Vec<D>,
    /// Whether to hand the host's index to the worker.
    pub set_index: bool,
    /// Whether to hand the query to the worker, after the index.
    pub query: bool,
}

/// Whether the worker is to get a host's index: there is one, and it is not the
/// one that was handed over last.
pub open spec fn index_is_due(
    gens: Map<Seq<char>, u64>,
    host: Seq<char>,
    current_gen: Option<u64>,
    has_dirs: bool,
) -> bool {
    has_dirs && current_gen != if gens.contains_key(host) {
        Some(gens[host])
    } else {
        None
    }
}

/// The generation of each host's index that was handed over last.
pub open spec fn gens_after(
    gens: Map<Seq<char>, u64>,
    host: Seq<char>,
    current_gen: Option<u64>,
    has_dirs: bool,
) -> Map<Seq<char>, u64> {
    match current_gen {
        Some(generation) => if index_is_due(gens, host, current_gen, has_dirs) {
            gens.insert(host, generation)
        } else {
            gens
        },
        None => gens,
    }
}

/// Whether the worker is to get the query: it is not the one that was handed over
/// last, or the index is new.
pub open spec fn query_is_due(
    gens: Map<Seq<char>, u64>,
    queries: Map<Seq<char>, String>,
    host: Seq<char>,
    query: Seq<char>,
    current_gen: Option<u64>,
    has_dirs: bool,
) -> bool {
    ||| index_is_due(gens, host, current_gen, has_dirs)
    ||| !queries.contains_key(host)
    ||| queries[host]@ != query
}

/// The query that was handed over last for each host.
pub open spec fn queries_after(
    gens: Map<Seq<char>, u64>,
    queries: Map<Seq<char>, String>,
    host: Seq<char>,
    query: String,
    current_gen: Option<u64>,
    has_dirs: bool,
) -> Map<Seq<char>, String> {
    if query_is_due(gens, queries, host, query@, current_gen, has_dirs) {
        queries.insert(host, query)
    } else {
        queries
    }
}

/// Decides what the worker is told and what the dialog gets.
///
/// `drained` are the results that have come in; `current_gen` and `has_dirs` tell
/// the generation of the host's index, and whether it holds directories. Results
/// for a closed dialog are dropped. An index is handed over once for each
/// generation, a query once for each change of the query or of the index.
pub fn tick_fuzzy_dispatch<D>(
    spawn_ui: &FuzzyUi,
    drained: Vec<D>,
    current_gen: Option<u64>,
    has_dirs: bool,
    last_pushed_index_gen: &mut Memo<u64>,
    last_pushed_query: &mut Memo<String>,
) -> (r: FuzzyDispatch<D>)
    ensures
        match *spawn_ui {
            FuzzyUi::Closed => {
                &&& r.results@.len() == 0 && !r.set_index && !r.query
                &&& final(last_pushed_index_gen)@ == old(last_pushed_index_gen)@
                &&& final(last_pushed_query)@ == old(last_pushed_query)@
            },
            FuzzyUi::Idle => {
                &&& r.results@ == drained@ && !r.set_index && !r.query
                &&& final(last_pushed_index_gen)@ == old(last_pushed_index_gen)@
                &&& final(last_pushed_query)@ == old(last_pushed_query)@
            },
            FuzzyUi::Asking { host, query } => {
                let gens = old(last_pushed_index_gen)@;
                let queries = old(last_pushed_query)@;
                &&& r.results@ == drained@
                &&& r.set_index == index_is_due(gens, host@, current_gen, has_dirs)
                &&& r.query == query_is_due(
                    gens,
                    queries,
                    host@,
                    query@,
                    current_gen,
                    has_dirs,
                )
                &&& final(last_pushed_index_gen)@ == gens_after(
                    gens,
                    host@,
                    current_gen,
                    has_dirs,
                )
                &&& final(last_pushed_query)@ == queries_after(
                    gens,
                    queries,
                    host@,
                    query,
                    current_gen,
                    has_dirs,
                )
            },
        },
        *spawn_ui matches FuzzyUi::Asking { host, query } ==> {
            &&& final(last_pushed_query)@.contains_key(host@)
            &&& final(last_pushed_query)@[host@]@ == query@
            &&& !old(last_pushed_query)@.contains_key(host@) || old(last_pushed_query)@[host@]@
                != query@ ==> r.query
            &&& r.set_index ==> r.query
        },
{
    match spawn_ui {
        FuzzyUi::Closed => FuzzyDispatch { results: Vec::new(), set_index: false, query: false },
        FuzzyUi::Idle => FuzzyDispatch { results: drained, set_index: false, query: false },
        FuzzyUi::Asking { host, query } => {
            let pushed_gen: Option<u64> = match last_pushed_index_gen.get(host) {
                Some(generation) => Some(*generation),
                None => None,
            };
            let set_index = has_dirs && current_gen != pushed_gen;
            let ghost queries = last_pushed_query@;
            if set_index {
                if let Some(generation) = current_gen {
                    last_pushed_index_gen.insert(host.clone(), generation);
                }
                last_pushed_query.remove(host);
            }
            let asked = match last_pushed_query.get(host) {
                Some(last) => *last == *query,
                None => false,
            };
            if !asked {
                last_pushed_query.insert(host.clone(), query.clone());
                assert(last_pushed_query@ =~= queries.insert(host@, *query));
            }
            FuzzyDispatch { results: drained, set_index, query: !asked }
        },
    }
}

/// A dialog in which nothing changes costs nothing: once the worker has been told
/// about an index and a query it is not told again. That an index which has
/// directories also has a generation is asked for.
pub proof fn a_static_query_is_dispatched_once(
    gens: Map<Seq<char>, u64>,
    queries: Map<Seq<char>, String>,
    host: Seq<char>,
    query: String,
    current_gen: Option<u64>,
    has_dirs: bool,
)
    requires
        has_dirs && gens.contains_key(host) ==> current_gen is Some,
    ensures
        ({
            let gens1 = gens_after(gens, host, current_gen, has_dirs);
            let queries1 = queries_after(gens, queries, host, query, current_gen, has_dirs);
            &&& !index_is_due(gens1, host, current_gen, has_dirs)
            &&& !query_is_due(gens1, queries1, host, query@, current_gen, has_dirs)
            &&& gens_after(gens1, host, current_gen, has_dirs) == gens1
            &&& queries_after(gens1, queries1, host, query, current_gen, has_dirs) == queries1
        }),
{
}

/// A new index is always followed by the query, so that results for it come in,
/// and what is told about one host leaves the others alone.
pub proof fn a_new_index_is_queried(
    gens: Map<Seq<char>, u64>,
    queries: Map<Seq<char>, String>,
    host: Seq<char>,
    other: Seq<char>,
    query: String,
    current_gen: Option<u64>,
    has_dirs: bool,
)
    ensures
        index_is_due(gens, host, current_gen, has_dirs) ==> query_is_due(
            gens,
            queries,
            host,
            query@,
            current_gen,
            has_dirs,
        ),
        other != host ==> gens_after(gens, host, current_gen, has_dirs).contains_key(other)
            == gens.contains_key(other),
        other != host && gens.contains_key(other) ==> gens_after(
            gens,
            host,
            current_gen,
            has_dirs,
        )[other] == gens[other],
        other != host ==> queries_after(
            gens,
            queries,
            host,
            query,
            current_gen,
            has_dirs,
        ).contains_key(other) == queries.contains_key(other),
        other != host && queries.contains_key(other) ==> queries_after(
            gens,
            queries,
            host,
            query,
            current_gen,
            has_dirs,
        )[other] == queries[other],
{
}

/// After every tick of a searching dialog the query on record for its host is the
/// one that the dialog asks for, to the letter, whatever was on record before.
pub proof fn the_query_on_record_is_the_one_asked_for(
    gens: Map<Seq<char>, u64>,
    queries: Map<Seq<char>, String>,
    host: Seq<char>,
    query: String,
    current_gen: Option<u64>,
    has_dirs: bool,
)
    ensures
        ({
            let after = queries_after(gens, queries, host, query, current_gen, has_dirs);
            &&& after.contains_key(host)
            &&& after[host]@ == query@
        }),
{
}

/// A query is handed over whenever it differs as text from the one on record,
/// whichever of the two is longer, and whenever there is none on record. Only a
/// query that is on record already, for an index that is known already, is held
/// back.
pub proof fn a_changed_query_is_handed_over(
    gens: Map<Seq<char>, u64>,
    queries: Map<Seq<char>, String>,
    host: Seq<char>,
    query: Seq<char>,
    current_gen: Option<u64>,
    has_dirs: bool,
)
    ensures
        queries.contains_key(host) && queries[host]@ != query ==> query_is_due(
            gens,
            queries,
            host,
            query,
            current_gen,
            has_dirs,
        ),
        !queries.contains_key(host) ==> query_is_due(
            gens,
            queries,
            host,
            query,
            current_gen,
            has_dirs,
        ),
        !query_is_due(gens, queries, host, query, current_gen, has_dirs) ==> {
            &&& queries.contains_key(host) && queries[host]@ == query
            &&& !index_is_due(gens, host, current_gen, has_dirs)
        },
        queries.contains_key(host) && queries[host]@ == query && (!has_dirs || (gens.contains_key(
            host,
        ) && current_gen == Some(gens[host]))) ==> !query_is_due(
            gens,
            queries,
            host,
            query,
            current_gen,
            has_dirs,
        ),
{
}

/// An index with directories is handed over whenever its generation is not the one
/// on record, be it older or newer, and its generation is on record afterwards. An
/// index without directories is never handed over, nor one that is on record.
pub proof fn a_changed_index_is_handed_over(
    gens: Map<Seq<char>, u64>,
    host: Seq<char>,
    generation: u64,
    has_dirs: bool,
)
    ensures
        ({
            let due = index_is_due(gens, host, Some(generation), has_dirs);
            let after = gens_after(gens, host, Some(generation), has_dirs);
            &&& has_dirs && !gens.contains_key(host) ==> due
            &&& has_dirs && gens.contains_key(host) ==> (due <==> gens[host] != generation)
            &&& !has_dirs ==> !due && after == gens
            &&& has_dirs ==> after.contains_key(host) && after[host] == generation
        }),
        !index_is_due(gens, host, None, false),
        index_is_due(gens, host, None, true) <==> gens.contains_key(host),
        gens_after(gens, host, None, has_dirs) == gens,
{
}

} // verus!
