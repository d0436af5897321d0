use vstd::prelude::*;

use vstd::hash_map::StringHashMap;
use vstd::hash_set::StringHashSet;
use vstd::string::StrSliceExecFns;

use crate::pipeline::Pipeline;
use crate::prices::PriceBook;
use crate::strings::str_eq;

verus! {

/// An element-wise copy of a bucket vector.
fn clone_string_vec(v: &Vec<String>) -> (r: Vec<String>)
    ensures
        r@ == v@,
{
    let n = v.len();
    let mut out: Vec<String> = Vec::new();
    let mut i: usize = 0;
    while i < n
        invariant
            i <= n,
            n == v@.len(),
            out@ == v@.subrange(0, i as int),
        decreases n - i,
    {
        out.push(v[i].clone());
        proof {
            assert(out@ =~= v@.subrange(0, i + 1));
        }
        i += 1;
    }
    proof {
        assert(v@.subrange(0, n as int) =~= v@);
    }
    out
}

/// The index bucket reserved for pipelines that must be looked at on every
/// tick, whatever asset moved.
pub open spec fn spec_sentinel_asset() -> Seq<char> {
    "NOW"@
}

/// The dedup keys of a bucket vector, in order.
pub open spec fn str_views(s: Seq<String>) -> Seq<Seq<char>> {
    s.map_values(|x: String| x@)
}

/// The set of dedup keys a bucket vector holds.
pub open spec fn key_set(s: Seq<String>) -> Set<Seq<char>> {
    Set::new(|k: Seq<char>| exists|i: int| 0 <= i < s.len() && s[i]@ == k)
}

/// No dedup key occurs twice in a bucket vector.
pub open spec fn distinct_views(s: Seq<String>) -> bool {
    forall|i: int, j: int| 0 <= i < j < s.len() ==> s[i]@ != s[j]@
}

/// Appending one string adds exactly its view to the key set.
pub proof fn lemma_key_set_push(s: Seq<String>, x: String)
    ensures
        key_set(s.push(x)) == key_set(s).insert(x@),
{
    assert forall|k: Seq<char>| key_set(s.push(x)).contains(k) implies key_set(s).insert(
        x@,
    ).contains(k) by {
        let w = choose|w: int| 0 <= w < s.push(x).len() && s.push(x)[w]@ == k;
        if w < s.len() {
            assert(s[w]@ == k);
        } else {
            assert(s.push(x)[w] == x);
        }
    }
    assert forall|k: Seq<char>| key_set(s).insert(x@).contains(k) implies key_set(
        s.push(x),
    ).contains(k) by {
        if k == x@ {
            assert(s.push(x)[s.len() as int]@ == k);
        } else {
            let w = choose|w: int| 0 <= w < s.len() && s[w]@ == k;
            assert(s.push(x)[w]@ == k);
        }
    }
    assert(key_set(s.push(x)) =~= key_set(s).insert(x@));
}

/// Whether a unit may claim a pipeline: its record is still `Pending` and no
/// other unit holds its dedup key.
pub open spec fn spec_can_claim(
    processing: Set<Seq<char>>,
    status: crate::pipeline::Status,
    key: Seq<char>,
) -> bool {
    status == crate::pipeline::Status::Pending && !processing.contains(key)
}

/// At most one evaluation of a pipeline runs at a time: once a claim for a
/// dedup key succeeds, any further claim for it fails whatever the record's
/// status says, and only releasing the key lets the same circumstances admit
/// a claim again.
pub proof fn lemma_at_most_one_evaluation(
    processing: Set<Seq<char>>,
    status: crate::pipeline::Status,
    other_status: crate::pipeline::Status,
    key: Seq<char>,
)
    ensures
        !spec_can_claim(processing.insert(key), other_status, key),
        spec_can_claim(processing, status, key) ==> spec_can_claim(
            processing.insert(key).remove(key),
            status,
            key,
        ),
{
}

/// A bucket's set and its snapshot order hold the same keys.
pub proof fn lemma_bucket_seq_set(e: &Engine, asset: Seq<char>, key: Seq<char>)
    ensures
        e.bucket(asset).contains(key) <==> e.bucket_seq(asset).contains(key),
{
    if e.active_pipelines@.contains_key(asset) {
        let v = e.active_pipelines@[asset]@;
        if e.bucket(asset).contains(key) {
            let w = choose|w: int| 0 <= w < v.len() && v[w]@ == key;
            assert(str_views(v)[w] == key);
        }
        if e.bucket_seq(asset).contains(key) {
            let w = choose|w: int| 0 <= w < str_views(v).len() && str_views(v)[w] == key;
            assert(v[w]@ == key);
        }
    }
}

/// A tick selects exactly the pipelines indexed under the sentinel or under
/// the moved asset: one indexed only under other assets is never a candidate,
/// and one in the sentinel bucket is a candidate on every tick.
pub proof fn lemma_candidate_selection(e: &Engine, tick_asset: Seq<char>, key: Seq<char>)
    ensures
        (e.bucket_seq(spec_sentinel_asset()) + e.bucket_seq(tick_asset)).contains(key) <==> (
        e.bucket(spec_sentinel_asset()).contains(key) || e.bucket(tick_asset).contains(key)),
{
    lemma_bucket_seq_set(e, spec_sentinel_asset(), key);
    lemma_bucket_seq_set(e, tick_asset, key);
    let s1 = e.bucket_seq(spec_sentinel_asset());
    let s2 = e.bucket_seq(tick_asset);
    if s1.contains(key) {
        let w = choose|w: int| 0 <= w < s1.len() && s1[w] == key;
        assert((s1 + s2)[w] == key);
    }
    if s2.contains(key) {
        let w = choose|w: int| 0 <= w < s2.len() && s2[w] == key;
        assert((s1 + s2)[s1.len() + w] == key);
    }
    if (s1 + s2).contains(key) {
        let w = choose|w: int| 0 <= w < (s1 + s2).len() && (s1 + s2)[w] == key;
        if w < s1.len() {
            assert(s1[w] == key);
        } else {
            assert(s2[w - s1.len()] == key);
        }
    }
}

/// Bucket distinctness depends only on the asset index, so it carries over
/// between engine values that share one.
proof fn lemma_wf_same_index(a: Engine, b: Engine)
    requires
        a.wf(),
        b.active_pipelines@ == a.active_pipelines@,
    ensures
        b.wf(),
{
    assert forall|x: Seq<char>| b.active_pipelines@.contains_key(x) implies distinct_views(
        b.active_pipelines@[x]@,
    ) by {
        assert(distinct_views(a.active_pipelines@[x]@));
    }
}

/// The engine's shared state: the price cache, the asset index, the set of
/// dedup keys under evaluation, and the counters that drive shutdown and
/// observability. Collaborator handles (store, feed, custody) live with the
/// runtime that owns this state.
pub struct Engine {
    price_cache: PriceBook,
    processing_pipelines: StringHashSet,
    active_pipelines: StringHashMap<Vec<String>>,
    pending_tasks: usize,
    shutdown_requested: bool,
    price_updates_processed: u64,
}

impl Engine {
    /// The latest observed price per asset.
    pub closed spec fn prices(&self) -> Map<Seq<char>, u64> {
        self.price_cache@
    }

    /// The dedup keys currently under evaluation.
    pub closed spec fn processing(&self) -> Set<Seq<char>> {
        self.processing_pipelines@
    }

    /// The dedup keys indexed under one asset; an asset with no bucket has an
    /// empty one.
    pub closed spec fn bucket(&self, asset: Seq<char>) -> Set<Seq<char>> {
        if self.active_pipelines@.contains_key(asset) {
            key_set(self.active_pipelines@[asset]@)
        } else {
            Set::empty()
        }
    }

    /// The dedup keys indexed under one asset, in bucket order.
    pub closed spec fn bucket_seq(&self, asset: Seq<char>) -> Seq<Seq<char>> {
        if self.active_pipelines@.contains_key(asset) {
            str_views(self.active_pipelines@[asset]@)
        } else {
            Seq::empty()
        }
    }

    /// The number of evaluation units in flight.
    pub closed spec fn pending(&self) -> int {
        self.pending_tasks as int
    }

    /// Whether the one-shot cancellation notification has been issued.
    pub closed spec fn is_shutdown_requested(&self) -> bool {
        self.shutdown_requested
    }

    /// How many ticks have been taken in, modulo the counter width.
    pub closed spec fn ticks_processed(&self) -> u64 {
        self.price_updates_processed
    }

    /// Buckets never hold a dedup key twice.
    pub closed spec fn wf(&self) -> bool {
        forall|a: Seq<char>|
            self.active_pipelines@.contains_key(a) ==> distinct_views(
                #[trigger] self.active_pipelines@[a]@,
            )
    }

    pub fn new() -> (r: Engine)
        ensures
            r.wf(),
            r.prices() == Map::<Seq<char>, u64>::empty(),
            r.processing() == Set::<Seq<char>>::empty(),
            forall|a: Seq<char>| r.bucket(a) == Set::<Seq<char>>::empty(),
            r.pending() == 0,
            !r.is_shutdown_requested(),
            r.ticks_processed() == 0,
    {
        Engine {
            price_cache: PriceBook::new(),
            processing_pipelines: StringHashSet::new(),
            active_pipelines: StringHashMap::new(),
            pending_tasks: 0,
            shutdown_requested: false,
            price_updates_processed: 0,
        }
    }

    /// Records a tick's price, last write wins, and counts the tick.
    pub fn update_price(&mut self, asset: &str, price: u64)
        ensures
            old(self).wf() ==> final(self).wf(),
            final(self).prices() == old(self).prices().insert(asset@, price),
            final(self).processing() == old(self).processing(),
            forall|a: Seq<char>| final(self).bucket(a) == old(self).bucket(a),
            forall|a: Seq<char>| final(self).bucket_seq(a) == old(self).bucket_seq(a),
            final(self).pending() == old(self).pending(),
            final(self).is_shutdown_requested() == old(self).is_shutdown_requested(),
            final(self).ticks_processed() == old(self).ticks_processed() as nat + 1
                || (old(self).ticks_processed() == u64::MAX && final(self).ticks_processed() == 0),
    {
        self.price_cache.set(asset, price);
        if self.price_updates_processed < u64::MAX {
            self.price_updates_processed = self.price_updates_processed + 1;
        } else {
            self.price_updates_processed = 0;
        }
        proof {
            if old(self).wf() {
                lemma_wf_same_index(*old(self), *self);
            }
        }
    }

    /// The latest price for an asset, if any tick for it has been seen.
    pub fn price_of(&self, asset: &str) -> (r: Option<u64>)
        ensures
            r == (if self.prices().contains_key(asset@) {
                Some(self.prices()[asset@])
            } else {
                None::<u64>
            }),
    {
        self.price_cache.get(asset)
    }

    /// A borrow of the price cache for condition evaluation.
    pub fn price_book(&self) -> (r: &PriceBook)
        ensures
            r@ == self.prices(),
    {
        &self.price_cache
    }

    /// The candidate dedup keys for a tick: the sentinel bucket's keys, then
    /// the moved asset's, a snapshot taken before anything else happens.
    pub fn candidate_keys(&self, asset: &str) -> (r: Vec<String>)
        ensures
            str_views(r@) == self.bucket_seq(spec_sentinel_asset()) + self.bucket_seq(asset@),
    {
        let mut out: Vec<String> = Vec::new();
        match self.active_pipelines.get("NOW") {
            Some(bucket) => {
                let n = bucket.len();
                let mut i: usize = 0;
                while i < n
                    invariant
                        i <= n,
                        n == bucket@.len(),
                        bucket@ == self.active_pipelines@[spec_sentinel_asset()]@,
                        self.active_pipelines@.contains_key(spec_sentinel_asset()),
                        out@ == bucket@.subrange(0, i as int),
                    decreases n - i,
                {
                    out.push(bucket[i].clone());
                    proof {
                        assert(out@ =~= bucket@.subrange(0, i + 1));
                    }
                    i += 1;
                }
                proof {
                    assert(bucket@.subrange(0, n as int) =~= bucket@);
                }
            },
            None => {},
        }
        let ghost base = out@;
        proof {
            assert(str_views(base) =~= self.bucket_seq(spec_sentinel_asset()));
        }
        match self.active_pipelines.get(asset) {
            Some(bucket) => {
                let n = bucket.len();
                let mut i: usize = 0;
                while i < n
                    invariant
                        i <= n,
                        n == bucket@.len(),
                        bucket@ == self.active_pipelines@[asset@]@,
                        self.active_pipelines@.contains_key(asset@),
                        out@ == base + bucket@.subrange(0, i as int),
                    decreases n - i,
                {
                    out.push(bucket[i].clone());
                    proof {
                        assert(out@ =~= base + bucket@.subrange(0, i + 1));
                    }
                    i += 1;
                }
                proof {
                    assert(bucket@.subrange(0, n as int) =~= bucket@);
                    assert(out@ == base + bucket@);
                }
            },
            None => {
                proof {
                    assert(out@ =~= base + Seq::<String>::empty());
                }
            },
        }
        proof {
            let ghost tail = if self.active_pipelines@.contains_key(asset@) {
                self.active_pipelines@[asset@]@
            } else {
                Seq::<String>::empty()
            };
            assert(out@ == base + tail);
            assert(str_views(tail) =~= self.bucket_seq(asset@));
            assert forall|k: int| 0 <= k < out@.len() implies str_views(out@)[k] == (str_views(base)
                + str_views(tail))[k] by {
                if k < base.len() {
                    assert(out@[k] == base[k]);
                } else {
                    assert(out@[k] == tail[k - base.len()]);
                }
            }
            assert(str_views(out@) =~= str_views(base) + str_views(tail));
        }
        out
    }

    /// Splits the candidate keys into batches of at most ten, the bound on
    /// concurrent store round trips per tick: every batch but the last holds
    /// exactly ten keys, in order.
    pub fn chunk_keys(keys: &Vec<String>) -> (r: Vec<Vec<String>>)
        ensures
            keys@.len() == 0 ==> r@.len() == 0,
            keys@.len() > 0 ==> 10 * (r@.len() - 1) < keys@.len() <= 10 * r@.len(),
            forall|i: int|
                0 <= i < r@.len() ==> (#[trigger] r@[i])@.len() == (if keys@.len() - 10 * i >= 10 {
                    10int
                } else {
                    keys@.len() - 10 * i
                }),
            forall|i: int, j: int|
                0 <= i < r@.len() && 0 <= j < r@[i]@.len() ==> r@[i]@[j] == keys@[10 * i + j],
    {
        let n = keys.len();
        let mut r: Vec<Vec<String>> = Vec::new();
        let mut start: usize = 0;
        while start < n
            invariant
                start <= n,
                n == keys@.len(),
                start == 10 * r@.len(),
                forall|i: int| 0 <= i < r@.len() ==> (#[trigger] r@[i])@.len() == 10,
                forall|i: int, j: int|
                    0 <= i < r@.len() && 0 <= j < r@[i]@.len() ==> r@[i]@[j] == keys@[10 * i + j],
            decreases n - start,
        {
            let m = n - start;
            let len: usize = if m >= 10 {
                10
            } else {
                m
            };
            let mut chunk: Vec<String> = Vec::new();
            let mut k: usize = 0;
            while k < len
                invariant
                    k <= len,
                    start + len <= n,
                    n == keys@.len(),
                    chunk@.len() == k,
                    forall|q: int| 0 <= q < k ==> chunk@[q] == keys@[start + q],
                decreases len - k,
            {
                chunk.push(keys[start + k].clone());
                k += 1;
            }
            r.push(chunk);
            if len < 10 {
                return r;
            }
            start = start + len;
        }
        r
    }

    /// Claims a candidate for evaluation: succeeds exactly when the fetched
    /// record is still `Pending` and no unit already holds the dedup key; a
    /// successful claim also counts the new unit. A failed claim changes
    /// nothing, which is the at-most-one-evaluation rule per pipeline.
    pub fn begin_evaluation(&mut self, key: &String, status: &crate::pipeline::Status) -> (r: bool)
        requires
            old(self).pending() < usize::MAX,
        ensures
            r == spec_can_claim(old(self).processing(), *status, key@),
            r ==> final(self).processing() == old(self).processing().insert(key@)
                && final(self).pending() == old(self).pending() + 1,
            !r ==> final(self).processing() == old(self).processing() && final(self).pending()
                == old(self).pending(),
            old(self).wf() ==> final(self).wf(),
            final(self).prices() == old(self).prices(),
            forall|a: Seq<char>| final(self).bucket(a) == old(self).bucket(a),
            forall|a: Seq<char>| final(self).bucket_seq(a) == old(self).bucket_seq(a),
            final(self).is_shutdown_requested() == old(self).is_shutdown_requested(),
            final(self).ticks_processed() == old(self).ticks_processed(),
    {
        if !matches!(status, crate::pipeline::Status::Pending) {
            return false;
        }
        if self.processing_pipelines.contains(key.as_str()) {
            return false;
        }
        self.processing_pipelines.insert(key.clone());
        self.pending_tasks = self.pending_tasks + 1;
        proof {
            if old(self).wf() {
                lemma_wf_same_index(*old(self), *self);
            }
        }
        true
    }

    /// Releases a unit when its evaluation ends, however it ended: the dedup
    /// key is freed and the unit uncounted unconditionally; only a unit that
    /// reported the pipeline terminal drops its key from the tick asset's
    /// bucket, so an interrupted pipeline stays reachable.
    pub fn finish_evaluation(&mut self, key: &str, asset: &str, terminal: bool)
        requires
            old(self).wf(),
            old(self).pending() >= 1,
        ensures
            final(self).wf(),
            final(self).processing() == old(self).processing().remove(key@),
            final(self).pending() == old(self).pending() - 1,
            terminal ==> final(self).bucket(asset@) == old(self).bucket(asset@).remove(key@),
            terminal ==> forall|a: Seq<char>|
                a != asset@ ==> final(self).bucket(a) == old(self).bucket(a),
            !terminal ==> forall|a: Seq<char>| final(self).bucket(a) == old(self).bucket(a),
            final(self).prices() == old(self).prices(),
            final(self).is_shutdown_requested() == old(self).is_shutdown_requested(),
            final(self).ticks_processed() == old(self).ticks_processed(),
    {
        self.processing_pipelines.remove(key);
        self.pending_tasks = self.pending_tasks - 1;
        if terminal {
            self.bucket_remove(asset, key);
        }
    }

    /// Drops one dedup key from one asset's bucket, if both exist.
    fn bucket_remove(&mut self, asset: &str, key: &str)
        requires
            old(self).wf(),
        ensures
            final(self).wf(),
            final(self).bucket(asset@) == old(self).bucket(asset@).remove(key@),
            forall|a: Seq<char>| a != asset@ ==> final(self).bucket(a) == old(self).bucket(a),
            final(self).prices() == old(self).prices(),
            final(self).processing() == old(self).processing(),
            final(self).pending() == old(self).pending(),
            final(self).is_shutdown_requested() == old(self).is_shutdown_requested(),
            final(self).ticks_processed() == old(self).ticks_processed(),
    {
        let mut bucket: Vec<String>;
        match self.active_pipelines.get(asset) {
            Some(b) => {
                bucket = clone_string_vec(b);
            },
            None => {
                proof {
                    assert(old(self).bucket(asset@) =~= old(self).bucket(asset@).remove(key@));
                }
                return ;
            },
        }
        let ghost orig = bucket@;
        let n = bucket.len();
        let mut i: usize = 0;
        let mut found: bool = false;
        while i < n && !found
            invariant
                i <= n,
                n == orig.len(),
                !found ==> bucket@ == orig,
                !found ==> forall|j: int| 0 <= j < i ==> orig[j]@ != key@,
                found ==> i < n && orig[i as int]@ == key@ && bucket@ == orig.subrange(
                    0,
                    i as int,
                ) + orig.subrange(i + 1, n as int),
            decreases n - i + (if found { 0int } else { 1int }),
        {
            if str_eq(bucket[i].as_str(), key) {
                bucket.remove(i);
                proof {
                    assert(bucket@ =~= orig.subrange(0, i as int) + orig.subrange(i + 1, n as int));
                }
                found = true;
            } else {
                i += 1;
            }
        }
        proof {
            let ka = asset@;
            assert(distinct_views(orig));
            if found {
                assert(distinct_views(bucket@)) by {
                    assert(forall|p: int, q: int|
                        0 <= p < q < bucket@.len() ==> bucket@[p]@ != bucket@[q]@) by {
                        assert forall|p: int, q: int|
                            0 <= p < q < bucket@.len() implies bucket@[p]@ != bucket@[q]@ by {
                            let p0 = if p < i { p } else { p + 1 };
                            let q0 = if q < i { q } else { q + 1 };
                            assert(bucket@[p] == orig[p0]);
                            assert(bucket@[q] == orig[q0]);
                        }
                    }
                }
                assert(key_set(bucket@) =~= key_set(orig).remove(key@)) by {
                    assert forall|k2: Seq<char>| key_set(bucket@).contains(k2) implies key_set(
                        orig,
                    ).remove(key@).contains(k2) by {
                        let w = choose|w: int| 0 <= w < bucket@.len() && bucket@[w]@ == k2;
                        let w0 = if w < i { w } else { w + 1 };
                        assert(orig[w0]@ == k2);
                        assert(k2 != key@) by {
                            if w < i {
                                assert(orig[w]@ != orig[i as int]@);
                            } else {
                                assert(orig[i as int]@ != orig[w + 1]@);
                            }
                        }
                    }
                    assert forall|k2: Seq<char>|
                        key_set(orig).remove(key@).contains(k2) implies key_set(
                        bucket@,
                    ).contains(k2) by {
                        let w = choose|w: int| 0 <= w < orig.len() && orig[w]@ == k2;
                        assert(w != i);
                        if w < i {
                            assert(bucket@[w]@ == k2);
                        } else {
                            assert(bucket@[w - 1]@ == k2);
                        }
                    }
                }
            } else {
                assert(bucket@ == orig);
                assert(key_set(orig) =~= key_set(orig).remove(key@)) by {
                    assert(!key_set(orig).contains(key@));
                }
            }
        }
        self.active_pipelines.insert(asset.to_owned(), bucket);
    }

    /// Adds one dedup key to one asset's bucket, creating the bucket if the
    /// asset was never indexed.
    fn bucket_add(&mut self, asset: &str, key: &String)
        requires
            old(self).wf(),
        ensures
            final(self).wf(),
            final(self).bucket(asset@) == old(self).bucket(asset@).insert(key@),
            forall|a: Seq<char>| a != asset@ ==> final(self).bucket(a) == old(self).bucket(a),
            final(self).prices() == old(self).prices(),
            final(self).processing() == old(self).processing(),
            final(self).pending() == old(self).pending(),
            final(self).is_shutdown_requested() == old(self).is_shutdown_requested(),
            final(self).ticks_processed() == old(self).ticks_processed(),
    {
        let mut bucket: Vec<String>;
        match self.active_pipelines.get(asset) {
            Some(b) => {
                bucket = clone_string_vec(b);
            },
            None => {
                bucket = Vec::new();
            },
        }
        let ghost orig = bucket@;
        let n = bucket.len();
        let mut i: usize = 0;
        let mut present: bool = false;
        while i < n && !present
            invariant
                i <= n,
                n == orig.len(),
                bucket@ == orig,
                !present ==> forall|j: int| 0 <= j < i ==> orig[j]@ != key@,
                present ==> key_set(orig).contains(key@),
            decreases n - i + (if present {
                0int
            } else {
                1int
            }),
        {
            if str_eq(bucket[i].as_str(), key.as_str()) {
                present = true;
            } else {
                i += 1;
            }
        }
        if !present {
            bucket.push(key.clone());
            proof {
                lemma_key_set_push(orig, bucket@.last());
                assert(distinct_views(bucket@)) by {
                    assert forall|p: int, q: int|
                        0 <= p < q < bucket@.len() implies bucket@[p]@ != bucket@[q]@ by {
                        if q == orig.len() {
                            assert(bucket@[p] == orig[p]);
                        } else {
                            assert(bucket@[p] == orig[p] && bucket@[q] == orig[q]);
                        }
                    }
                }
            }
        } else {
            proof {
                assert(key_set(orig) =~= key_set(orig).insert(key@));
            }
        }
        let ghost updated = bucket@;
        self.active_pipelines.insert(asset.to_owned(), bucket);
        proof {
            if old(self).active_pipelines@.contains_key(asset@) {
                assert(key_set(updated) == old(self).bucket(asset@).insert(key@));
            } else {
                assert(old(self).bucket(asset@) =~= Set::<Seq<char>>::empty());
                assert(key_set(updated) =~= old(self).bucket(asset@).insert(key@)) by {
                    if !present {
                        assert(key_set(orig) =~= Set::<Seq<char>>::empty());
                    }
                }
            }
            assert forall|x: Seq<char>| self.active_pipelines@.contains_key(x) implies
                distinct_views(self.active_pipelines@[x]@) by {
                if x == asset@ {
                    assert(self.active_pipelines@[x]@ == updated);
                } else {
                    assert(distinct_views(old(self).active_pipelines@[x]@));
                }
            }
        }
    }

    /// Projects a pipeline into the asset index: its dedup key is added to the
    /// bucket of every asset its condition trees reference.
    pub fn index_pipeline(&mut self, p: &Pipeline)
        requires
            old(self).wf(),
        ensures
            final(self).wf(),
            forall|a: Seq<char>|
                #[trigger] final(self).bucket(a) == (if p.spec_assets().contains(a) {
                    old(self).bucket(a).insert(
                        crate::pipeline::spec_dedup_key(p.user_id@, p.id@),
                    )
                } else {
                    old(self).bucket(a)
                }),
            final(self).prices() == old(self).prices(),
            final(self).processing() == old(self).processing(),
            final(self).pending() == old(self).pending(),
            final(self).is_shutdown_requested() == old(self).is_shutdown_requested(),
            final(self).ticks_processed() == old(self).ticks_processed(),
    {
        let key = p.dedup_key();
        let assets = p.extract_assets();
        let ghost base = *old(self);
        let n = assets.len();
        let mut i: usize = 0;
        while i < n
            invariant
                i <= n,
                n == assets@.len(),
                self.wf(),
                key@ == crate::pipeline::spec_dedup_key(p.user_id@, p.id@),
                key_set(assets@) == p.spec_assets(),
                forall|a: Seq<char>|
                    #[trigger] self.bucket(a) == (if (exists|q: int|
                        0 <= q < i && assets@[q]@ == a) {
                        base.bucket(a).insert(key@)
                    } else {
                        base.bucket(a)
                    }),
                self.prices() == base.prices(),
                self.processing() == base.processing(),
                self.pending() == base.pending(),
                self.is_shutdown_requested() == base.is_shutdown_requested(),
                self.ticks_processed() == base.ticks_processed(),
            decreases n - i,
        {
            let ghost before = *self;
            self.bucket_add(assets[i].as_str(), &key);
            proof {
                assert forall|a: Seq<char>|
                    #[trigger] self.bucket(a) == (if (exists|q: int|
                        0 <= q < i + 1 && assets@[q]@ == a) {
                        base.bucket(a).insert(key@)
                    } else {
                        base.bucket(a)
                    }) by {
                    if a == assets@[i as int]@ {
                        if exists|q: int| 0 <= q < i && assets@[q]@ == a {
                            assert(before.bucket(a) == base.bucket(a).insert(key@));
                            assert(base.bucket(a).insert(key@).insert(key@) =~= base.bucket(
                                a,
                            ).insert(key@));
                        } else {
                            assert(before.bucket(a) == base.bucket(a));
                        }
                        assert(assets@[i as int]@ == a);
                    } else {
                        assert(self.bucket(a) == before.bucket(a));
                    }
                }
            }
            i += 1;
        }
        proof {
            assert forall|a: Seq<char>|
                #[trigger] self.bucket(a) == (if p.spec_assets().contains(a) {
                    base.bucket(a).insert(key@)
                } else {
                    base.bucket(a)
                }) by {
                if p.spec_assets().contains(a) {
                    assert(key_set(assets@).contains(a));
                }
            }
        }
    }

    /// Rebuilds the asset index from the persisted pipelines at startup; every
    /// record is projected, whatever its status.
    pub fn load_pipelines(&mut self, pipelines: &Vec<Pipeline>)
        requires
            old(self).wf(),
        ensures
            final(self).wf(),
            forall|a: Seq<char>, k: Seq<char>|
                #[trigger] final(self).bucket(a).contains(k) <==> old(self).bucket(a).contains(k)
                    || (exists|i: int|
                    0 <= i < pipelines@.len() && (#[trigger] pipelines@[i].spec_assets()).contains(
                        a,
                    ) && k == crate::pipeline::spec_dedup_key(
                        pipelines@[i].user_id@,
                        pipelines@[i].id@,
                    )),
            final(self).prices() == old(self).prices(),
            final(self).processing() == old(self).processing(),
            final(self).pending() == old(self).pending(),
            final(self).is_shutdown_requested() == old(self).is_shutdown_requested(),
            final(self).ticks_processed() == old(self).ticks_processed(),
    {
        let ghost base = *old(self);
        let n = pipelines.len();
        let mut i: usize = 0;
        while i < n
            invariant
                i <= n,
                n == pipelines@.len(),
                self.wf(),
                forall|a: Seq<char>, k: Seq<char>|
                    #[trigger] self.bucket(a).contains(k) <==> base.bucket(a).contains(k) || (
                    exists|q: int|
                        0 <= q < i && (#[trigger] pipelines@[q].spec_assets()).contains(a) && k
                            == crate::pipeline::spec_dedup_key(
                            pipelines@[q].user_id@,
                            pipelines@[q].id@,
                        )),
                self.prices() == base.prices(),
                self.processing() == base.processing(),
                self.pending() == base.pending(),
                self.is_shutdown_requested() == base.is_shutdown_requested(),
                self.ticks_processed() == base.ticks_processed(),
            decreases n - i,
        {
            let ghost before = *self;
            self.index_pipeline(&pipelines[i]);
            proof {
                let p = pipelines@[i as int];
                assert forall|a: Seq<char>, k: Seq<char>|
                    #[trigger] self.bucket(a).contains(k) <==> (base.bucket(a).contains(k) || (
                    exists|q: int|
                        0 <= q < i + 1 && (#[trigger] pipelines@[q].spec_assets()).contains(a) && k
                            == crate::pipeline::spec_dedup_key(
                            pipelines@[q].user_id@,
                            pipelines@[q].id@,
                        ))) by {
                    if p.spec_assets().contains(a) {
                        assert(self.bucket(a) == before.bucket(a).insert(
                            crate::pipeline::spec_dedup_key(p.user_id@, p.id@),
                        ));
                    } else {
                        assert(self.bucket(a) == before.bucket(a));
                    }
                    if self.bucket(a).contains(k) {
                        if !before.bucket(a).contains(k) {
                            assert(p.spec_assets().contains(a) && k
                                == crate::pipeline::spec_dedup_key(p.user_id@, p.id@));
                        }
                    }
                    if exists|q: int|
                        0 <= q < i + 1 && (#[trigger] pipelines@[q].spec_assets()).contains(a) && k
                            == crate::pipeline::spec_dedup_key(
                            pipelines@[q].user_id@,
                            pipelines@[q].id@,
                        ) {
                        let w = choose|q: int|
                            0 <= q < i + 1 && (#[trigger] pipelines@[q].spec_assets()).contains(a)
                                && k == crate::pipeline::spec_dedup_key(
                                pipelines@[q].user_id@,
                                pipelines@[q].id@,
                            );
                        if w < i {
                            assert(before.bucket(a).contains(k));
                        }
                    }
                }
            }
            i += 1;
        }
    }

    /// Issues the one-shot cancellation notification to in-flight units.
    pub fn request_shutdown(&mut self)
        ensures
            final(self).is_shutdown_requested(),
            old(self).wf() ==> final(self).wf(),
            final(self).prices() == old(self).prices(),
            final(self).processing() == old(self).processing(),
            forall|a: Seq<char>| final(self).bucket(a) == old(self).bucket(a),
            final(self).pending() == old(self).pending(),
            final(self).ticks_processed() == old(self).ticks_processed(),
    {
        self.shutdown_requested = true;
        proof {
            if old(self).wf() {
                lemma_wf_same_index(*old(self), *self);
            }
        }
    }

    /// The shutdown drain may end exactly when no evaluation unit is left in
    /// flight.
    pub fn shutdown_complete(&self) -> (r: bool)
        ensures
            r == (self.pending() == 0),
    {
        self.pending_tasks == 0
    }

    /// How many evaluation units are in flight, for drain progress reports.
    pub fn pending_task_count(&self) -> (r: usize)
        ensures
            r == self.pending(),
    {
        self.pending_tasks
    }
}

} // verus!
