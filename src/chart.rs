use vstd::prelude::*;

use crate::types::PriceHistory;

verus! {

// ---------------------------------------------------------------------------
// Downsampling
// ---------------------------------------------------------------------------

pub open spec fn seq_min(s: Seq<u64>) -> u64
    recommends
        s.len() > 0,
    decreases s.len(),
{
    if s.len() <= 1 {
        s[0]
    } else {
        let m = seq_min(s.drop_last());
        if s.last() < m {
            s.last()
        } else {
            m
        }
    }
}

pub open spec fn seq_max(s: Seq<u64>) -> u64
    recommends
        s.len() > 0,
    decreases s.len(),
{
    if s.len() <= 1 {
        s[0]
    } else {
        let m = seq_max(s.drop_last());
        if s.last() > m {
            s.last()
        } else {
            m
        }
    }
}

pub proof fn lemma_min_max(s: Seq<u64>)
    requires
        s.len() > 0,
    ensures
        s.contains(seq_min(s)),
        s.contains(seq_max(s)),
        forall|k: int| 0 <= k < s.len() ==> seq_min(s) <= #[trigger] s[k] <= seq_max(s),
    decreases s.len(),
{
    if s.len() > 1 {
        lemma_min_max(s.drop_last());
        let p = choose|p: int| 0 <= p < s.drop_last().len() && s.drop_last()[p] == seq_min(s.drop_last());
        let q = choose|q: int| 0 <= q < s.drop_last().len() && s.drop_last()[q] == seq_max(s.drop_last());
        assert(s[p] == s.drop_last()[p]);
        assert(s[q] == s.drop_last()[q]);
        assert(s[s.len() - 1] == s.last());
        assert forall|k: int| 0 <= k < s.len() implies seq_min(s) <= #[trigger] s[k] <= seq_max(s) by {
            if k < s.len() - 1 {
                assert(s.drop_last()[k] == s[k]);
            }
        }
    } else {
        assert(s[0] == s[0]);
    }
}

pub open spec fn abs_diff(a: u64, b: u64) -> int {
    if a >= b {
        a - b
    } else {
        b - a
    }
}

/// First input position of bucket `i` when `n` samples are split into `w`
/// contiguous buckets.
pub open spec fn bucket_start(i: int, n: int, w: int) -> int {
    i * n / w
}

pub open spec fn bucket(data: Seq<u64>, w: int, i: int) -> Seq<u64> {
    data.subrange(bucket_start(i, data.len() as int, w), bucket_start(i + 1, data.len() as int, w))
}

/// The sample emitted for bucket `i` after `prev` (the samples emitted so
/// far): the first bucket gives its last value; later buckets give whichever
/// of their minimum and maximum lies farther from the last emitted sample
/// (the maximum on a tie).
pub open spec fn bucket_pick(data: Seq<u64>, w: int, i: int, prev: Seq<u64>) -> u64 {
    let b = bucket(data, w, i);
    if prev.len() == 0 {
        b.last()
    } else if abs_diff(seq_min(b), prev.last()) > abs_diff(seq_max(b), prev.last()) {
        seq_min(b)
    } else {
        seq_max(b)
    }
}

/// The samples emitted for the first `k` buckets.
pub open spec fn picks(data: Seq<u64>, w: int, k: nat) -> Seq<u64>
    decreases k,
{
    if k == 0 {
        Seq::empty()
    } else {
        let prev = picks(data, w, (k - 1) as nat);
        prev.push(bucket_pick(data, w, k - 1, prev))
    }
}

/// The downsampled series: empty for an empty input or a zero width; the
/// input itself when it already fits; otherwise one sample per bucket.
pub open spec fn downsampled(data: Seq<u64>, w: nat) -> Seq<u64> {
    if w == 0 || data.len() == 0 {
        Seq::empty()
    } else if data.len() <= w {
        data
    } else {
        picks(data, w as int, w)
    }
}

proof fn lemma_bucket_bounds(i: int, n: int, w: int)
    requires
        0 < w < n,
        0 <= i < w,
    ensures
        0 <= bucket_start(i, n, w) < bucket_start(i + 1, n, w) <= n,
{
    assert(0 <= i * n) by (nonlinear_arith)
        requires
            0 <= i,
            0 < n,
    ;
    assert((i + 1) * n == i * n + n) by (nonlinear_arith);
    assert((i * n) / w + 1 <= (i * n + n) / w) by (nonlinear_arith)
        requires
            0 < w < n,
            0 <= i * n,
    ;
    assert((i + 1) * n <= w * n) by (nonlinear_arith)
        requires
            i + 1 <= w,
            0 < n,
    ;
    assert((w * n) / w == n) by (nonlinear_arith)
        requires
            0 < w,
    ;
    assert(((i + 1) * n) / w <= (w * n) / w) by (nonlinear_arith)
        requires
            (i + 1) * n <= w * n,
            0 < w,
    ;
    assert(0 <= (i * n) / w) by (nonlinear_arith)
        requires
            0 <= i * n,
            0 < w,
    ;
}

proof fn lemma_picks_from_data(data: Seq<u64>, w: int, k: nat)
    requires
        0 < w < data.len(),
        k <= w,
    ensures
        picks(data, w, k).len() == k,
        forall|t: int| 0 <= t < k ==> data.contains(#[trigger] picks(data, w, k)[t]),
    decreases k,
{
    if k > 0 {
        lemma_picks_from_data(data, w, (k - 1) as nat);
        let prev = picks(data, w, (k - 1) as nat);
        let i = k - 1;
        lemma_bucket_bounds(i, data.len() as int, w);
        let s = bucket_start(i, data.len() as int, w);
        let b = bucket(data, w, i);
        lemma_min_max(b);
        let v = bucket_pick(data, w, i, prev);
        assert(b.contains(v)) by {
            assert(b[b.len() - 1] == b.last());
        }
        let p = choose|p: int| 0 <= p < b.len() && b[p] == v;
        assert(data[s + p] == v);
        assert forall|t: int| 0 <= t < k implies data.contains(#[trigger] picks(data, w, k)[t]) by {
            if t < k - 1 {
                assert(picks(data, w, k)[t] == prev[t]);
            }
        }
    }
}

/// Reduces a series to at most `target_len` samples, keeping its peaks and
/// valleys rather than averaging them away.
///
/// Bucket boundaries are computed exactly, so when the series is longer than
/// `target_len` no bucket is empty.
pub fn downsample(data: &Vec<u64>, target_len: usize) -> (r: Vec<u64>)
    ensures
        r@ == downsampled(data@, target_len as nat),
        data@.len() > 0 && target_len > 0 ==> r@.len() == if data@.len() <= target_len {
            data@.len()
        } else {
            target_len as nat
        },
        data@.len() <= target_len ==> r@ == data@ || target_len == 0,
        forall|k: int| 0 <= k < r@.len() ==> data@.contains(#[trigger] r@[k]),
        forall|k: int|
            0 <= k < r@.len() ==> seq_min(data@) <= #[trigger] r@[k] <= seq_max(data@),
{
    let n = data.len();
    if target_len == 0 || n == 0 {
        return Vec::new();
    }
    if n <= target_len {
        let r = data.clone();
        assert(r@ =~= data@);
        proof {
            lemma_min_max(data@);
        }
        return r;
    }
    let w = target_len;
    let mut result: Vec<u64> = Vec::new();
    let mut i: usize = 0;
    while i < w
        invariant
            n == data@.len(),
            0 < w < n,
            i <= w,
            result@ == picks(data@, w as int, i as nat),
        decreases w - i,
    {
        proof {
            lemma_bucket_bounds(i as int, n as int, w as int);
        }
        proof {
            assert((i as int) * (n as int) <= 0xffff_ffff_ffff_ffffu128 * 0xffff_ffff_ffff_ffffu128) by (nonlinear_arith)
                requires
                    i <= 0xffff_ffff_ffff_ffffu64,
                    n <= 0xffff_ffff_ffff_ffffu64,
            ;
            assert(((i + 1) as int) * (n as int) <= 0xffff_ffff_ffff_ffffu128 * 0xffff_ffff_ffff_ffffu128) by (nonlinear_arith)
                requires
                    i + 1 <= 0xffff_ffff_ffff_ffffu64,
                    n <= 0xffff_ffff_ffff_ffffu64,
            ;
        }
        let start = ((i as u128) * (n as u128) / (w as u128)) as usize;
        let end = (((i + 1) as u128) * (n as u128) / (w as u128)) as usize;
        assert(start == bucket_start(i as int, n as int, w as int));
        assert(end == bucket_start(i + 1, n as int, w as int));
        let ghost b = data@.subrange(start as int, end as int);
        let mut mn = data[start];
        let mut mx = data[start];
        let mut k = start + 1;
        assert(data@.subrange(start as int, k as int) =~= seq![data@[start as int]]);
        while k < end
            invariant
                n == data@.len(),
                start < k <= end <= n,
                mn == seq_min(data@.subrange(start as int, k as int)),
                mx == seq_max(data@.subrange(start as int, k as int)),
            decreases end - k,
        {
            assert(data@.subrange(start as int, k + 1).drop_last() =~= data@.subrange(start as int, k as int));
            let x = data[k];
            if x < mn {
                mn = x;
            }
            if x > mx {
                mx = x;
            }
            k = k + 1;
        }
        let ghost prev = result@;
        if result.len() == 0 {
            result.push(data[end - 1]);
        } else {
            let last = result[result.len() - 1];
            let d_min = if mn >= last {
                mn - last
            } else {
                last - mn
            };
            let d_max = if mx >= last {
                mx - last
            } else {
                last - mx
            };
            if d_min > d_max {
                result.push(mn);
            } else {
                result.push(mx);
            }
        }
        assert(result@ =~= picks(data@, w as int, (i + 1) as nat));
        i = i + 1;
    }
    proof {
        lemma_picks_from_data(data@, w as int, w as nat);
        lemma_min_max(data@);
    }
    result
}

// ---------------------------------------------------------------------------
// Sparkline heights
// ---------------------------------------------------------------------------

/// Bar height of sample `p` on a scale of `resolution` steps over
/// `[lo, hi]`; a flat series sits at mid-scale.
pub open spec fn height_of(p: u64, lo: u64, hi: u64, resolution: u64) -> int {
    if hi == lo {
        resolution as int / 2
    } else {
        (p - lo) * resolution / (hi - lo)
    }
}

/// Scales a (downsampled) series to bar heights in `0..=resolution`, the
/// lowest sample at zero and the highest at `resolution`.
pub fn spark_heights(samples: &Vec<u64>, resolution: u64) -> (r: Vec<u64>)
    ensures
        r@.len() == samples@.len(),
        samples@.len() > 0 ==> forall|k: int|
            0 <= k < r@.len() ==> #[trigger] r@[k] == height_of(
                samples@[k],
                seq_min(samples@),
                seq_max(samples@),
                resolution,
            ) && r@[k] <= resolution,
{
    let n = samples.len();
    let mut out: Vec<u64> = Vec::new();
    if n == 0 {
        return out;
    }
    let mut lo = samples[0];
    let mut hi = samples[0];
    let mut k: usize = 1;
    assert(samples@.subrange(0, 1) =~= seq![samples@[0]]);
    while k < n
        invariant
            n == samples@.len(),
            1 <= k <= n,
            lo == seq_min(samples@.subrange(0, k as int)),
            hi == seq_max(samples@.subrange(0, k as int)),
        decreases n - k,
    {
        assert(samples@.subrange(0, k + 1).drop_last() =~= samples@.subrange(0, k as int));
        if samples[k] < lo {
            lo = samples[k];
        }
        if samples[k] > hi {
            hi = samples[k];
        }
        k = k + 1;
    }
    assert(samples@.subrange(0, n as int) =~= samples@);
    proof {
        lemma_min_max(samples@);
    }
    let mut k: usize = 0;
    while k < n
        invariant
            n == samples@.len(),
            k <= n,
            out@.len() == k,
            lo == seq_min(samples@),
            hi == seq_max(samples@),
            forall|t: int| 0 <= t < n ==> lo <= #[trigger] samples@[t] <= hi,
            forall|t: int|
                0 <= t < k ==> #[trigger] out@[t] == height_of(samples@[t], lo, hi, resolution)
                    && out@[t] <= resolution,
        decreases n - k,
    {
        let p = samples[k];
        let h: u64 = if hi == lo {
            resolution / 2
        } else {
            assert(((p - lo) as int) * (resolution as int) <= 0xffff_ffff_ffff_ffffu128 * 0xffff_ffff_ffff_ffffu128) by (nonlinear_arith)
                requires
                    p - lo <= 0xffff_ffff_ffff_ffffu64,
                    resolution <= 0xffff_ffff_ffff_ffffu64,
                    p - lo >= 0,
                    resolution >= 0,
            ;
            let num = ((p - lo) as u128) * (resolution as u128);
            let den = (hi - lo) as u128;
            proof {
                assert(num <= (den as int) * (resolution as int)) by (nonlinear_arith)
                    requires
                        num == (p - lo) * resolution,
                        p - lo <= den,
                        resolution >= 0,
                ;
                assert(num / den <= resolution) by (nonlinear_arith)
                    requires
                        num <= den * resolution,
                        den > 0,
                ;
            }
            (num / den) as u64
        };
        out.push(h);
        k = k + 1;
    }
    out
}

// ---------------------------------------------------------------------------
// Chart cache
// ---------------------------------------------------------------------------

/// One fetched series, keyed by asset identifier and range in days.
#[derive(Debug, Clone)]
pub struct ChartEntry {
    pub coin_id: String,
    pub days: u32,
    pub history: PriceHistory,
}

/// The series cached for `(id, days)`: the latest entry with that key.
pub open spec fn lookup(entries: Seq<ChartEntry>, id: Seq<char>, days: u32) -> Option<Seq<u64>>
    decreases entries.len(),
{
    if entries.len() == 0 {
        None
    } else if entries.last().coin_id@ == id && entries.last().days == days {
        Some(entries.last().history.prices@)
    } else {
        lookup(entries.drop_last(), id, days)
    }
}

/// Fetched price series by (asset, range). Entries are only ever added, or
/// all dropped at once (e.g. when the display currency changes).
#[derive(Debug)]
pub struct ChartCache {
    entries: Vec<ChartEntry>,
}

impl ChartCache {
    /// The series cached for `(id, days)`, if any.
    pub closed spec fn cached(&self, id: Seq<char>, days: u32) -> Option<Seq<u64>> {
        lookup(self.entries@, id, days)
    }

    pub closed spec fn size(&self) -> nat {
        self.entries@.len()
    }

    pub fn new() -> (r: ChartCache)
        ensures
            forall|id: Seq<char>, days: u32| r.cached(id, days).is_none(),
            r.size() == 0,
    {
        ChartCache { entries: Vec::new() }
    }

    fn find(&self, id: &String, days: u32) -> (r: Option<usize>)
        ensures
            r.is_none() ==> self.cached(id@, days).is_none(),
            r.is_some() ==> r.unwrap() < self.entries@.len() && self.cached(id@, days) == Some(
                self.entries@[r.unwrap() as int].history.prices@,
            ),
    {
        let mut k = self.entries.len();
        assert(self.entries@.subrange(0, k as int) =~= self.entries@);
        while k > 0
            invariant
                k <= self.entries@.len(),
                lookup(self.entries@, id@, days) == lookup(self.entries@.subrange(0, k as int), id@, days),
            decreases k,
        {
            let ghost sub = self.entries@.subrange(0, k as int);
            assert(sub.last() == self.entries@[k - 1]);
            if self.entries[k - 1].days == days && self.entries[k - 1].coin_id == *id {
                return Some(k - 1);
            }
            assert(sub.drop_last() =~= self.entries@.subrange(0, k - 1));
            k = k - 1;
        }
        None
    }

    /// Whether a series for `(id, days)` is cached.
    pub fn contains(&self, id: &String, days: u32) -> (r: bool)
        ensures
            r == self.cached(id@, days).is_some(),
    {
        self.find(id, days).is_some()
    }

    /// The cached series for `(id, days)`, if any.
    pub fn get(&self, id: &String, days: u32) -> (r: Option<&PriceHistory>)
        ensures
            r.is_some() == self.cached(id@, days).is_some(),
            r.is_some() ==> Some(r.unwrap().prices@) == self.cached(id@, days),
    {
        match self.find(id, days) {
            Some(k) => Some(&self.entries[k].history),
            None => None,
        }
    }

    /// Stores a fetched series under `(id, days)`; other keys are untouched.
    pub fn insert(&mut self, id: String, days: u32, history: PriceHistory)
        ensures
            final(self).cached(id@, days) == Some(history.prices@),
            forall|id2: Seq<char>, days2: u32|
                !(id2 == id@ && days2 == days) ==> #[trigger] final(self).cached(id2, days2) == old(self).cached(id2, days2),
    {
        let ghost prices = history.prices@;
        let ghost key = id@;
        self.entries.push(ChartEntry { coin_id: id, days, history });
        assert(self.entries@.drop_last() =~= old(self).entries@);
    }

    /// The series for `(id, days)`: the cached one when present, without
    /// calling `fetch`; otherwise what `fetch` returns, cached on success
    /// and leaving the cache as it was on failure (so a retry is possible).
    pub fn get_or_fetch<F: FnOnce(&String, u32) -> Result<Vec<u64>, String>>(
        &mut self,
        id: &String,
        days: u32,
        fetch: F,
    ) -> (r: Result<Vec<u64>, String>)
        requires
            old(self).cached(id@, days).is_none() ==> fetch.requires((id, days)),
        ensures
            old(self).cached(id@, days).is_some() ==> final(self).cached(id@, days) == old(self).cached(id@, days)
                && match r {
                Ok(v) => Some(v@) == old(self).cached(id@, days),
                Err(_) => false,
            },
            old(self).cached(id@, days).is_none() ==> fetch.ensures((id, days), r),
            old(self).cached(id@, days).is_none() ==> match r {
                Ok(v) => final(self).cached(id@, days) == Some(v@),
                Err(_) => final(self).cached(id@, days).is_none(),
            },
            forall|id2: Seq<char>, days2: u32|
                !(id2 == id@ && days2 == days) ==> #[trigger] final(self).cached(id2, days2) == old(self).cached(id2, days2),
    {
        match self.find(id, days) {
            Some(k) => {
                let v = self.entries[k].history.prices.clone();
                assert(v@ =~= self.entries@[k as int].history.prices@);
                Ok(v)
            },
            None => {
                let r = fetch(id, days);
                match r {
                    Ok(v) => {
                        let kept = v.clone();
                        assert(kept@ =~= v@);
                        self.insert(id.clone(), days, PriceHistory { prices: kept });
                        Ok(v)
                    },
                    Err(e) => Err(e),
                }
            },
        }
    }

    /// Drops every cached series.
    pub fn clear(&mut self)
        ensures
            forall|id: Seq<char>, days: u32| final(self).cached(id, days).is_none(),
            final(self).size() == 0,
    {
        self.entries.clear();
    }

    pub fn len(&self) -> (r: usize)
        ensures
            r == self.size(),
    {
        self.entries.len()
    }
}

} // verus!
