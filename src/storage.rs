//! The host's key-value store and clock, as capabilities handed to the services.
use vstd::prelude::*;

use crate::calendar::Clock;

verus! {

/// A key-value store of byte records.
pub trait Storage {
    /// What the store holds: each key with its record.
    spec fn records(&self) -> Map<Seq<char>, Seq<u8>>;

    /// Stores `value` under `key`, replacing what was there.
    fn persist(&mut self, key: &str, value: &Vec<u8>)
        ensures
            final(self).records() == old(self).records().insert(key@, value@),
    ;

    /// The record under `key`, if any.
    fn retrieve(&self, key: &str) -> (r: Option<Vec<u8>>)
        ensures
            r is Some <==> self.records().contains_key(key@),
            r matches Some(v) ==> v@ == self.records()[key@],
    ;

    /// The records whose keys lie in the range from `start` up to `end` (exclusive): each one
    /// handed back is held under such a key, and each such key's record is handed back.
    fn retrieve_range(&self, start: &str, end: &str) -> (r: Vec<Vec<u8>>)
        ensures
            forall|i: int|
                0 <= i < r.len() ==> holds_record_in(
                    self.records(),
                    start@,
                    end@,
                    #[trigger] r@[i]@,
                ),
            forall|k: Seq<char>|
                #![trigger self.records().contains_key(k)]
                self.records().contains_key(k) && key_in_range(k, start@, end@) ==> among(
                    r@,
                    self.records()[k],
                ),
    ;
}

/// Whether `a` sorts before `b`, character by character by code point: the order of `str`.
pub open spec fn key_less(a: Seq<char>, b: Seq<char>) -> bool
    decreases a.len(),
{
    if a.len() == 0 {
        b.len() > 0
    } else if b.len() == 0 {
        false
    } else if a[0] != b[0] {
        (a[0] as int) < (b[0] as int)
    } else {
        key_less(a.drop_first(), b.drop_first())
    }
}

/// Whether `k` lies from `start` up to `end` (exclusive).
pub open spec fn key_in_range(k: Seq<char>, start: Seq<char>, end: Seq<char>) -> bool {
    !key_less(k, start) && key_less(k, end)
}

/// Whether one of `vs` holds the bytes `v`.
pub open spec fn among(vs: Seq<Vec<u8>>, v: Seq<u8>) -> bool {
    exists|i: int| 0 <= i < vs.len() && vs[i]@ == v
}

/// Whether `v` is held under some key of `m` in the range from `start` up to `end`.
pub open spec fn holds_record_in(
    m: Map<Seq<char>, Seq<u8>>,
    start: Seq<char>,
    end: Seq<char>,
    v: Seq<u8>,
) -> bool {
    exists|k: Seq<char>| m.contains_key(k) && key_in_range(k, start, end) && m[k] == v
}

/// Whether `a` sorts before `b` (see `key_less`).
pub fn is_key_less(a: &str, b: &str) -> (r: bool)
    ensures
        r == key_less(a@, b@),
{
    let n = a.unicode_len();
    let m = b.unicode_len();
    let mut i: usize = 0;
    proof {
        assert(a@.skip(0) =~= a@);
        assert(b@.skip(0) =~= b@);
    }
    while i < n && i < m
        invariant
            n == a@.len(),
            m == b@.len(),
            i <= n,
            i <= m,
            key_less(a@, b@) == key_less(a@.skip(i as int), b@.skip(i as int)),
        decreases n - i,
    {
        let x = a.get_char(i);
        let y = b.get_char(i);
        proof {
            let sa = a@.skip(i as int);
            let sb = b@.skip(i as int);
            assert(sa[0] == x && sb[0] == y);
            assert(sa.drop_first() =~= a@.skip(i as int + 1));
            assert(sb.drop_first() =~= b@.skip(i as int + 1));
        }
        if x != y {
            return (x as u32) < (y as u32);
        }
        i = i + 1;
    }
    proof {
        let sa = a@.skip(i as int);
        let sb = b@.skip(i as int);
        assert(sa.len() == 0 || sb.len() == 0);
    }
    i == n && i < m
}

/// The host's clock.
pub trait Time {
    fn now(&self) -> Clock;
}

/// The map that a log of writes leaves behind: a later write to a key replaces an earlier one.
pub open spec fn replay(log: Seq<(Seq<char>, Seq<u8>)>) -> Map<Seq<char>, Seq<u8>>
    decreases log.len(),
{
    if log.len() == 0 {
        Map::empty()
    } else {
        replay(log.drop_last()).insert(log.last().0, log.last().1)
    }
}

pub open spec fn entry_views(entries: Seq<(String, Vec<u8>)>) -> Seq<(Seq<char>, Seq<u8>)> {
    entries.map_values(|e: (String, Vec<u8>)| (e.0@, e.1@))
}

/// A key absent from every write of the log is absent from its map.
proof fn lemma_replay_absent(log: Seq<(Seq<char>, Seq<u8>)>, k: Seq<char>)
    requires
        forall|i: int| 0 <= i < log.len() ==> (#[trigger] log[i]).0 != k,
    ensures
        !replay(log).contains_key(k),
    decreases log.len(),
{
    if log.len() > 0 {
        let prefix = log.drop_last();
        assert forall|i: int| 0 <= i < prefix.len() implies (#[trigger] prefix[i]).0 != k by {
            assert(prefix[i] == log[i]);
        }
        lemma_replay_absent(prefix, k);
    }
}

/// The last write to a key gives its value.
proof fn lemma_replay_last(log: Seq<(Seq<char>, Seq<u8>)>, k: Seq<char>, i: int)
    requires
        0 <= i < log.len(),
        log[i].0 == k,
        forall|j: int| i < j < log.len() ==> (#[trigger] log[j]).0 != k,
    ensures
        replay(log).contains_key(k),
        replay(log)[k] == log[i].1,
    decreases log.len(),
{
    if i < log.len() - 1 {
        let prefix = log.drop_last();
        assert forall|j: int| i < j < prefix.len() implies (#[trigger] prefix[j]).0 != k by {
            assert(prefix[j] == log[j]);
        }
        lemma_replay_last(prefix, k, i);
    }
}

/// A copy of `v`.
pub fn copy_bytes(v: &Vec<u8>) -> (r: Vec<u8>)
    ensures
        r@ == v@,
{
    let mut r: Vec<u8> = Vec::with_capacity(v.len());
    let mut i: usize = 0;
    while i < v.len()
        invariant
            i <= v.len(),
            r@ == v@.take(i as int),
        decreases v.len() - i,
    {
        r.push(v[i]);
        i = i + 1;
        proof {
            assert(r@ =~= v@.take(i as int));
        }
    }
    proof {
        assert(v@.take(v.len() as int) =~= v@);
    }
    r
}

/// Whether `i` is the last write to `k` in `log`.
pub open spec fn last_write_at(log: Seq<(Seq<char>, Seq<u8>)>, k: Seq<char>, i: int) -> bool {
    0 <= i < log.len() && log[i].0 == k && forall|j: int| i < j < log.len() ==> (#[trigger] log[j]).0
        != k
}

/// A key of the log's map has a last write.
proof fn lemma_replay_has_last(log: Seq<(Seq<char>, Seq<u8>)>, k: Seq<char>)
    requires
        replay(log).contains_key(k),
    ensures
        exists|i: int| last_write_at(log, k, i),
    decreases log.len(),
{
    let n = log.len() as int;
    if log[n - 1].0 == k {
        assert(last_write_at(log, k, n - 1));
    } else {
        let prefix = log.drop_last();
        lemma_replay_has_last(prefix, k);
        let i = choose|i: int| last_write_at(prefix, k, i);
        assert forall|j: int| i < j < log.len() implies (#[trigger] log[j]).0 != k by {
            if j < n - 1 {
                assert(log[j] == prefix[j]);
            }
        }
        assert(last_write_at(log, k, i));
    }
}

/// A store kept in memory, as a log of writes.
pub struct MemoryStore {
    entries: Vec<(String, Vec<u8>)>,
    clock: Clock,
}

impl MemoryStore {
    /// An empty store whose clock reads `clock`.
    pub fn new(clock: Clock) -> (r: MemoryStore)
        ensures
            r.records() == Map::<Seq<char>, Seq<u8>>::empty(),
            r.clock() == clock,
    {
        MemoryStore { entries: Vec::new(), clock }
    }

    pub closed spec fn clock(&self) -> Clock {
        self.clock
    }

    /// Index of the last write to `key`, if any.
    fn last_write(&self, key: &str) -> (r: Option<usize>)
        ensures
            r matches Some(i) ==> i < self.entries.len() && self.entries@[i as int].0@ == key@
                && forall|j: int|
                i < j < self.entries.len() ==> (#[trigger] self.entries@[j]).0@ != key@,
            r is None ==> forall|j: int|
                0 <= j < self.entries.len() ==> (#[trigger] self.entries@[j]).0@ != key@,
    {
        let wanted = String::from_str(key);
        let mut i: usize = self.entries.len();
        while i > 0
            invariant
                i <= self.entries.len(),
                wanted@ == key@,
                forall|j: int|
                    i <= j < self.entries.len() ==> (#[trigger] self.entries@[j]).0@ != key@,
            decreases i,
        {
            if self.entries[i - 1].0 == wanted {
                return Some(i - 1);
            }
            i = i - 1;
        }
        None
    }
}

impl Storage for MemoryStore {
    closed spec fn records(&self) -> Map<Seq<char>, Seq<u8>> {
        replay(entry_views(self.entries@))
    }

    fn persist(&mut self, key: &str, value: &Vec<u8>) {
        let ghost before = self.entries@;
        self.entries.push((String::from_str(key), copy_bytes(value)));
        proof {
            let log = entry_views(self.entries@);
            assert(log.drop_last() =~= entry_views(before));
        }
    }

    fn retrieve(&self, key: &str) -> (r: Option<Vec<u8>>) {
        let ghost log = entry_views(self.entries@);
        match self.last_write(key) {
            Some(i) => {
                proof {
                    assert forall|j: int| i < j < log.len() implies (#[trigger] log[j]).0 != key@ by {
                        assert(log[j].0 == self.entries@[j].0@);
                    }
                    lemma_replay_last(log, key@, i as int);
                }
                Some(copy_bytes(&self.entries[i].1))
            },
            None => {
                proof {
                    assert forall|j: int| 0 <= j < log.len() implies (#[trigger] log[j]).0 != key@ by {
                        assert(log[j].0 == self.entries@[j].0@);
                    }
                    lemma_replay_absent(log, key@);
                }
                None
            },
        }
    }

    fn retrieve_range(&self, start: &str, end: &str) -> (r: Vec<Vec<u8>>) {
        let ghost log = entry_views(self.entries@);
        let mut out: Vec<Vec<u8>> = Vec::new();
        let mut i: usize = 0;
        while i < self.entries.len()
            invariant
                i <= self.entries.len(),
                log == entry_views(self.entries@),
                log.len() == self.entries.len(),
                forall|m: int|
                    0 <= m < out.len() ==> holds_record_in(
                        replay(log),
                        start@,
                        end@,
                        #[trigger] out@[m]@,
                    ),
                forall|k: Seq<char>, l: int|
                    #![trigger last_write_at(log, k, l)]
                    last_write_at(log, k, l) && l < i && key_in_range(k, start@, end@) ==> among(
                        out@,
                        replay(log)[k],
                    ),
            decreases self.entries.len() - i,
        {
            let key = self.entries[i].0.as_str();
            let in_range = !is_key_less(key, start) && is_key_less(key, end);
            let ghost before = out@;
            proof {
                assert(log[i as int].0 == key@);
            }
            let lw = self.last_write(key);
            match lw {
                Some(j) => {
                    if j == i && in_range {
                        proof {
                            assert forall|l: int| i < l < log.len() implies (#[trigger] log[l]).0
                                != key@ by {
                                assert(log[l].0 == self.entries@[l].0@);
                            }
                            lemma_replay_last(log, key@, i as int);
                        }
                        out.push(copy_bytes(&self.entries[i].1));
                        proof {
                            assert(out@[before.len() as int]@ == replay(log)[key@]);
                            assert forall|m: int| 0 <= m < out.len() implies holds_record_in(
                                replay(log),
                                start@,
                                end@,
                                #[trigger] out@[m]@,
                            ) by {
                                if m < before.len() {
                                    assert(out@[m] == before[m]);
                                } else {
                                    assert(replay(log).contains_key(key@) && key_in_range(
                                        key@,
                                        start@,
                                        end@,
                                    ) && replay(log)[key@] == out@[m]@);
                                }
                            }
                        }
                    }
                },
                None => {},
            }
            proof {
                assert forall|k: Seq<char>, l: int|
                    #[trigger] last_write_at(log, k, l) && l < i + 1 && key_in_range(
                        k,
                        start@,
                        end@,
                    ) implies among(out@, replay(log)[k]) by {
                    if l < i {
                        let m = choose|m: int| 0 <= m < before.len() && before[m]@ == replay(log)[k];
                        assert(out@[m] == before[m]);
                    } else {
                        assert(k == key@);
                        match lw {
                            Some(j) => {
                                assert(log[j as int].0 == self.entries@[j as int].0@);
                                if (j as int) < l {
                                    assert(log[l].0 == self.entries@[l].0@);
                                }
                                if (j as int) > l {
                                    assert(log[j as int].0 != k);
                                }
                                assert(j == i);
                                assert(out@[before.len() as int]@ == replay(log)[key@]);
                            },
                            None => {
                                assert(self.entries@[i as int].0@ != key@);
                            },
                        }
                    }
                }
            }
            i = i + 1;
        }
        proof {
            assert forall|k: Seq<char>|
                #![trigger replay(log).contains_key(k)]
                replay(log).contains_key(k) && key_in_range(k, start@, end@) implies among(
                out@,
                replay(log)[k],
            ) by {
                lemma_replay_has_last(log, k);
                let l = choose|l: int| last_write_at(log, k, l);
                assert(last_write_at(log, k, l));
            }
        }
        out
    }
}

impl Time for MemoryStore {
    fn now(&self) -> Clock {
        self.clock
    }
}

} // verus!
