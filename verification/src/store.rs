//! The paste store: durable, time-bounded storage of opaque blobs keyed by
//! a server-generated random identifier.
//!
//! A paste is immutable once created. It is visible to `get` exactly while
//! its expiry lies strictly in the future; sweeping reclaims expired rows
//! but is never needed for correctness, since `get` checks the expiry
//! itself.

use crate::errors::ApiError;
use crate::hexcode::is_lower_hex_digit;
use vstd::prelude::*;
use vstd::seq_lib::group_seq_lib_default;

verus! {

/// One stored paste: a random identifier, the opaque blob (base64 text the
/// server never decodes), and an absolute expiry in seconds.
pub struct Paste {
    /// The server-generated identifier.
    pub id: String,
    /// The opaque blob, exactly as the client sent it.
    pub content: String,
    /// Seconds since the epoch after which the paste is absent.
    pub expires_at: i64,
}

/// No two pastes share an identifier.
pub open spec fn unique_ids(s: Seq<Paste>) -> bool {
    forall|i: int, j: int| 0 <= i < j < s.len() ==> s[i].id@ != s[j].id@
}

/// The store: a table of pastes with pairwise distinct identifiers.
pub struct PasteStore {
    pastes: Vec<Paste>,
}

impl PasteStore {
    /// The stored pastes, in insertion order.
    pub closed spec fn entries(self) -> Seq<Paste> {
        self.pastes@
    }

    /// The store's invariant: identifiers are unique.
    pub open spec fn wf(self) -> bool {
        unique_ids(self.entries())
    }

    /// Whether some paste is stored under this id, expired or not.
    pub open spec fn has_id(self, id: Seq<char>) -> bool {
        exists|i: int| 0 <= i < self.entries().len() && self.entries()[i].id@ == id
    }

    /// The paste stored under this id, if any.
    pub open spec fn spec_get(self, id: Seq<char>) -> Option<Paste> {
        if self.has_id(id) {
            Some(
                self.entries()[choose|i: int|
                    0 <= i < self.entries().len() && self.entries()[i].id@ == id],
            )
        } else {
            None
        }
    }

    /// Whether a paste is stored under this id and not yet expired, so
    /// that `get` returns it.
    pub open spec fn is_live(self, id: Seq<char>, now: i64) -> bool {
        match self.spec_get(id) {
            Some(p) => p.expires_at > now,
            None => false,
        }
    }

    /// An empty store.
    pub fn new() -> (r: PasteStore)
        ensures
            r.wf(),
            r.entries() == Seq::<Paste>::empty(),
    {
        PasteStore { pastes: Vec::new() }
    }

    /// The stored pastes, in insertion order, for the layer that persists
    /// or inspects them.
    pub fn rows(&self) -> (r: &Vec<Paste>)
        ensures
            r@ == self.entries(),
    {
        &self.pastes
    }

    /// Persist a new paste. Succeeds exactly when the id is fresh; a
    /// collision leaves the store unchanged and is reported as a storage
    /// failure, never retried silently.
    #[verifier::loop_isolation(false)]
    pub fn put(&mut self, id: String, content: String, expires_at: i64) -> (r: Result<
        (),
        ApiError,
    >)
        requires
            old(self).wf(),
        ensures
            final(self).wf(),
            !old(self).has_id(id@) ==> r is Ok && final(self).entries() == old(self).entries().push(
                (Paste { id, content, expires_at }),
            ),
            old(self).has_id(id@) ==> r == Err::<(), ApiError>(ApiError::Storage)
                && final(self).entries() == old(self).entries(),
    {
        let n = self.pastes.len();
        let mut k: usize = 0;
        while k < n
            invariant
                k <= n,
                n == self.pastes@.len(),
                forall|m: int| 0 <= m < k ==> self.pastes@[m].id@ != id@,
                *self == *old(self),
            decreases n - k,
        {
            if self.pastes[k].id == id {
                proof {
                    assert(old(self).entries()[k as int].id@ == id@);
                }
                return Err(ApiError::Storage);
            }
            k = k + 1;
        }
        let ghost before = self.pastes@;
        self.pastes.push(Paste { id, content, expires_at });
        proof {
            assert forall|i: int, j: int|
                0 <= i < j < self.pastes@.len() implies self.pastes@[i].id@
                != self.pastes@[j].id@ by {
                if j < before.len() {
                    assert(before[i].id@ != before[j].id@);
                }
            }
        }
        Ok(())
    }

    /// Look a paste up by id. Returns its blob exactly when the paste is
    /// stored and its expiry lies strictly in the future; an expired paste
    /// answers as if it were absent.
    #[verifier::loop_isolation(false)]
    pub fn get(&self, id: &String, now: i64) -> (r: Result<String, ApiError>)
        requires
            self.wf(),
        ensures
            r is Ok <==> self.is_live(id@, now),
            r matches Ok(c) ==> self.spec_get(id@) matches Some(p) && c@ == p.content@,
            r matches Err(e) ==> e == ApiError::NotFound,
    {
        let n = self.pastes.len();
        let mut k: usize = 0;
        while k < n
            invariant
                k <= n,
                n == self.pastes@.len(),
                self.wf(),
                forall|m: int| 0 <= m < k ==> self.pastes@[m].id@ != id@,
            decreases n - k,
        {
            if self.pastes[k].id == *id {
                proof {
                    let w = choose|i: int|
                        0 <= i < self.entries().len() && self.entries()[i].id@ == id@;
                    assert(self.entries()[k as int].id@ == id@);
                    assert(w == k as int);
                }
                if self.pastes[k].expires_at > now {
                    return Ok(self.pastes[k].content.clone());
                } else {
                    return Err(ApiError::NotFound);
                }
            }
            k = k + 1;
        }
        Err(ApiError::NotFound)
    }

    /// Delete every expired paste and report how many went. A paste whose
    /// expiry lies in the future stays, in order; one at or past its
    /// expiry goes.
    #[verifier::loop_isolation(false)]
    pub fn sweep_expired(&mut self, now: i64) -> (r: usize)
        requires
            old(self).wf(),
        ensures
            final(self).wf(),
            final(self).entries() == old(self).entries().filter(
                |p: Paste| p.expires_at > now,
            ),
            r == old(self).entries().len() - final(self).entries().len(),
    {
        broadcast use group_seq_lib_default;

        let orig_len = self.pastes.len();
        let ghost orig = old(self).entries();
        let ghost pred = |p: Paste| p.expires_at > now;
        let mut k: usize = 0;
        let ghost mut removed: int = 0;
        while k < self.pastes.len()
            invariant
                k <= self.pastes@.len(),
                0 <= removed,
                k + removed <= orig.len(),
                orig.len() == orig_len,
                self.pastes@ == orig.subrange(0, k + removed).filter(pred) + orig.subrange(
                    k + removed,
                    orig.len() as int,
                ),
                k == orig.subrange(0, k + removed).filter(pred).len(),
            decreases self.pastes@.len() - k,
        {
            let ghost seen = k + removed;
            let ghost prefix = orig.subrange(0, seen);
            let ghost suffix = orig.subrange(seen, orig.len() as int);
            proof {
                assert(self.pastes@[k as int] == suffix[0]);
                assert(suffix[0] == orig[seen]);
                assert(orig.subrange(0, seen + 1) =~= prefix.push(orig[seen]));
                prefix.lemma_filter_push(orig[seen], pred);
            }
            if self.pastes[k].expires_at > now {
                proof {
                    assert(pred(orig[seen]));
                    assert(suffix.subrange(1, suffix.len() as int) =~= orig.subrange(
                        seen + 1,
                        orig.len() as int,
                    ));
                    assert(self.pastes@ =~= orig.subrange(0, seen + 1).filter(pred)
                        + orig.subrange(seen + 1, orig.len() as int));
                }
                k = k + 1;
            } else {
                let ghost before = self.pastes@;
                self.pastes.remove(k);
                proof {
                    assert(!pred(orig[seen]));
                    removed = removed + 1;
                    assert(self.pastes@ =~= before.subrange(0, k as int) + before.subrange(
                        k + 1,
                        before.len() as int,
                    ));
                    assert(before.subrange(0, k as int) =~= prefix.filter(pred));
                    assert(before.subrange(k + 1, before.len() as int) =~= orig.subrange(
                        seen + 1,
                        orig.len() as int,
                    ));
                    assert(self.pastes@ =~= orig.subrange(0, seen + 1).filter(pred)
                        + orig.subrange(seen + 1, orig.len() as int));
                }
            }
        }
        proof {
            assert(orig.subrange(0, k + removed) =~= orig);
            assert(orig.subrange(k + removed, orig.len() as int) =~= Seq::<Paste>::empty());
            assert(self.pastes@ =~= orig.filter(pred));
            lemma_filter_unique_ids(orig, pred);
        }
        let final_len = self.pastes.len();
        orig_len - final_len
    }
}

/// The shape of a canonical identifier string: 36 characters, hyphens at
/// exactly the positions 8, 13, 18 and 23, and lower-case hex digits
/// everywhere else (the 8-4-4-4-12 rendering of a UUID).
pub open spec fn is_paste_id(s: Seq<char>) -> bool {
    &&& s.len() == 36
    &&& s[8] == '-' && s[13] == '-' && s[18] == '-' && s[23] == '-'
    &&& forall|i: int|
        0 <= i < s.len() && i != 8 && i != 13 && i != 18 && i != 23 ==> is_lower_hex_digit(
            #[trigger] s[i],
        )
}

/// A server-generated identifier never holds the reference separator, so
/// a reference built from it parses back.
pub proof fn lemma_paste_id_no_separator(s: Seq<char>)
    requires
        is_paste_id(s),
    ensures
        forall|i: int| 0 <= i < s.len() ==> s[i] != '#',
{
    assert forall|i: int| 0 <= i < s.len() implies s[i] != '#' by {
        if i != 8 && i != 13 && i != 18 && i != 23 {
            assert(is_lower_hex_digit(s[i]));
        }
        assert('#' as u32 == 35);
        assert('-' as u32 == 45);
    }
}

/// Relies on uuid's Uuid::new_v4 and its Display form: a fresh random
/// 128-bit identifier rendered as the canonical hyphenated lower-case
/// UUID string.
#[verifier::external_body]
pub fn fresh_paste_id() -> (r: String)
    ensures
        is_paste_id(r@),
{
    uuid::Uuid::new_v4().to_string()
}

/// Every id in a filtered table already stands in the table.
proof fn lemma_filter_id_in(s: Seq<Paste>, pred: spec_fn(Paste) -> bool)
    ensures
        forall|i: int|
            0 <= i < s.filter(pred).len() ==> exists|j: int|
                0 <= j < s.len() && (#[trigger] s.filter(pred)[i]).id@ == s[j].id@,
    decreases s.len(),
{
    reveal(Seq::filter);
    if s.len() > 0 {
        let d = s.drop_last();
        lemma_filter_id_in(d, pred);
        let f = s.filter(pred);
        let fd = d.filter(pred);
        assert forall|i: int|
            0 <= i < f.len() implies exists|j: int|
            0 <= j < s.len() && (#[trigger] f[i]).id@ == s[j].id@ by {
            if i < fd.len() {
                let j = choose|j: int| 0 <= j < d.len() && fd[i].id@ == d[j].id@;
                assert(f[i] == fd[i]);
                assert(f[i].id@ == s[j].id@);
            } else {
                assert(f[i] == s.last());
                assert(f[i].id@ == s[s.len() - 1].id@);
            }
        }
    }
}

/// Filtering a table with unique ids leaves the ids unique.
proof fn lemma_filter_unique_ids(s: Seq<Paste>, pred: spec_fn(Paste) -> bool)
    requires
        unique_ids(s),
    ensures
        unique_ids(s.filter(pred)),
    decreases s.len(),
{
    reveal(Seq::filter);
    if s.len() > 0 {
        let d = s.drop_last();
        assert(unique_ids(d)) by {
            assert(forall|i: int| 0 <= i < d.len() ==> d[i] == s[i]);
        }
        lemma_filter_unique_ids(d, pred);
        lemma_filter_id_in(d, pred);
        if pred(s.last()) {
            let fd = d.filter(pred);
            assert forall|i: int| 0 <= i < fd.len() implies fd[i].id@ != s.last().id@ by {
                let j = choose|j: int| 0 <= j < d.len() && fd[i].id@ == d[j].id@;
                assert(s[j].id@ != s[s.len() - 1].id@);
            }
            assert(unique_ids(fd.push(s.last())));
        }
    }
}

/// Every element of a filtered table stands in the table.
proof fn lemma_filter_member(s: Seq<Paste>, pred: spec_fn(Paste) -> bool)
    ensures
        forall|i: int|
            0 <= i < s.filter(pred).len() ==> exists|j: int|
                0 <= j < s.len() && (#[trigger] s.filter(pred)[i]) == s[j],
    decreases s.len(),
{
    reveal(Seq::filter);
    if s.len() > 0 {
        let d = s.drop_last();
        lemma_filter_member(d, pred);
        let f = s.filter(pred);
        let fd = d.filter(pred);
        assert forall|i: int|
            0 <= i < f.len() implies exists|j: int|
            0 <= j < s.len() && (#[trigger] f[i]) == s[j] by {
            if i < fd.len() {
                let j = choose|j: int| 0 <= j < d.len() && fd[i] == d[j];
                assert(f[i] == s[j]);
            } else {
                assert(f[i] == s[s.len() - 1]);
            }
        }
    }
}

/// One change to the table, as `put` and `sweep_expired` ensure it: a
/// creation appends the paste when its id is fresh and is refused
/// otherwise; a sweep at an instant keeps exactly the unexpired rows.
pub enum StoreEvent {
    /// A `put` of this paste.
    Insert(Paste),
    /// A `sweep_expired` at this instant.
    Sweep(i64),
}

/// What one event leaves of the table.
pub open spec fn step(s: Seq<Paste>, e: StoreEvent) -> Seq<Paste> {
    match e {
        StoreEvent::Insert(p) => if exists|i: int| 0 <= i < s.len() && s[i].id@ == p.id@ {
            s
        } else {
            s.push(p)
        },
        StoreEvent::Sweep(t) => s.filter(|q: Paste| q.expires_at > t),
    }
}

/// What a sequence of events, run in order, leaves of the table.
pub open spec fn run(s: Seq<Paste>, es: Seq<StoreEvent>) -> Seq<Paste>
    decreases es.len(),
{
    if es.len() == 0 {
        s
    } else {
        run(step(s, es[0]), es.drop_first())
    }
}

/// A stored paste survives any later traffic that ends before its expiry:
/// however many creations and sweeps follow, as long as every sweep comes
/// while the paste is unexpired, the paste still stands in the table, and
/// the ids stay unique.
pub proof fn lemma_live_paste_survives(s: Seq<Paste>, es: Seq<StoreEvent>, p: Paste)
    requires
        unique_ids(s),
        exists|i: int| 0 <= i < s.len() && s[i] == p,
        forall|k: int|
            0 <= k < es.len() ==> ((#[trigger] es[k]) matches StoreEvent::Sweep(t)
                ==> p.expires_at > t),
    ensures
        unique_ids(run(s, es)),
        exists|i: int| 0 <= i < run(s, es).len() && run(s, es)[i] == p,
    decreases es.len(),
{
    if es.len() > 0 {
        let e = es[0];
        let s2 = step(s, e);
        let i = choose|i: int| 0 <= i < s.len() && s[i] == p;
        match e {
            StoreEvent::Insert(q) => {
                if !(exists|m: int| 0 <= m < s.len() && s[m].id@ == q.id@) {
                    assert(unique_ids(s2)) by {
                        assert forall|a: int, b: int|
                            0 <= a < b < s2.len() implies s2[a].id@ != s2[b].id@ by {
                            if b < s.len() {
                                assert(s[a].id@ != s[b].id@);
                            } else {
                                assert(s2[a] == s[a]);
                                assert(s[a].id@ != q.id@);
                            }
                        }
                    }
                }
                assert(s2[i] == p);
            },
            StoreEvent::Sweep(t) => {
                let pred = |q: Paste| q.expires_at > t;
                lemma_filter_unique_ids(s, pred);
                assert(p.expires_at > t);
                s.lemma_filter_contains(pred, i);
                assert(s2.contains(p));
            },
        }
        assert forall|k: int|
            0 <= k < es.drop_first().len() implies ((#[trigger] es.drop_first()[k]) matches
            StoreEvent::Sweep(t) ==> p.expires_at > t) by {
            assert(es.drop_first()[k] == es[k + 1]);
        }
        lemma_live_paste_survives(s2, es.drop_first(), p);
        assert(run(s, es) == run(s2, es.drop_first()));
    }
}

/// Read-your-writes across later traffic. A store that holds a paste, run
/// through any creations and sweeps that all happen before that paste's
/// expiry, still answers a get of its id with the paste itself at any
/// instant before the expiry.
pub proof fn lemma_read_your_writes(
    before: PasteStore,
    after: PasteStore,
    es: Seq<StoreEvent>,
    p: Paste,
    now: i64,
)
    requires
        before.wf(),
        exists|i: int| 0 <= i < before.entries().len() && before.entries()[i] == p,
        after.entries() == run(before.entries(), es),
        forall|k: int|
            0 <= k < es.len() ==> ((#[trigger] es[k]) matches StoreEvent::Sweep(t)
                ==> p.expires_at > t),
        now < p.expires_at,
    ensures
        after.wf(),
        after.spec_get(p.id@) == Some(p),
        after.is_live(p.id@, now),
{
    lemma_live_paste_survives(before.entries(), es, p);
    let f = after.entries();
    let i = choose|i: int| 0 <= i < f.len() && f[i] == p;
    assert(f[i].id@ == p.id@);
    assert(after.has_id(p.id@));
    let w = choose|w: int| 0 <= w < f.len() && f[w].id@ == p.id@;
    assert(w == i) by {
        if w != i {
            assert(f[w].id@ != f[i].id@);
        }
    }
}

/// Sweeping is safe. For any paste id: if the paste was live at the sweep's
/// instant it stands in the swept store unchanged, so a later `get` still
/// returns it; if it was expired or absent, the swept store does not hold
/// it at all.
pub proof fn lemma_sweep_safety(before: PasteStore, after: PasteStore, id: Seq<char>, now: i64)
    requires
        before.wf(),
        after.entries() == before.entries().filter(|p: Paste| p.expires_at > now),
    ensures
        before.is_live(id, now) ==> after.spec_get(id) == before.spec_get(id),
        !before.is_live(id, now) ==> after.spec_get(id) is None,
{
    broadcast use vstd::seq_lib::group_filter_ensures;

    let pred = |p: Paste| p.expires_at > now;
    let s = before.entries();
    let f = after.entries();
    lemma_filter_member(s, pred);
    lemma_filter_unique_ids(s, pred);
    if before.is_live(id, now) {
        let i = choose|i: int| 0 <= i < s.len() && s[i].id@ == id;
        let p = s[i];
        assert(pred(p));
        assert(f.contains(p));
        let fi = choose|fi: int| 0 <= fi < f.len() && f[fi] == p;
        assert(after.has_id(id));
        let w = choose|w: int| 0 <= w < f.len() && f[w].id@ == id;
        let q = f[w];
        let j = choose|j: int| 0 <= j < s.len() && f[w] == s[j];
        assert(q == s[j]);
        assert(j == i) by {
            if j != i {
                assert(s[i].id@ != s[j].id@);
            }
        }
        assert(after.spec_get(id) == Some(p));
        assert(before.spec_get(id) == Some(p));
    } else {
        if after.has_id(id) {
            let w = choose|w: int| 0 <= w < f.len() && f[w].id@ == id;
            let q = f[w];
            assert(pred(q));
            let j = choose|j: int| 0 <= j < s.len() && f[w] == s[j];
            assert(before.has_id(id));
            let i = choose|i: int| 0 <= i < s.len() && s[i].id@ == id;
            assert(j == i) by {
                if j != i {
                    assert(s[i].id@ != s[j].id@);
                }
            }
            assert(before.spec_get(id) == Some(q));
            assert(before.is_live(id, now));
        }
    }
}

} // verus!
