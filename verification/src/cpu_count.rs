//! The number of logical processor cores, detected once and kept.
//!
//! The cache is a single-assignment cell with two states: nothing detected
//! yet, or a count. The first lookup asks the platform and stores the answer;
//! every later lookup returns the stored count and asks nothing. One cache
//! serves one process: whoever shares it between threads guards it with a
//! lock, so that lookups happen one after the other.

use vstd::prelude::*;

verus! {

/// The count kept for a number of cores that the platform reported: the
/// number itself where it fits in `i32`, else its low 32 bits read as a
/// signed number. Nothing is clamped.
pub open spec fn count_from(detected: usize) -> i32 {
    detected as i32
}

/// What a lookup returns from `state` where the platform would report
/// `detected`: the cached count where there is one, else the new one.
pub open spec fn lookup_result(state: Option<i32>, detected: usize) -> i32 {
    match state {
        Some(count) => count,
        None => count_from(detected),
    }
}

/// The state that a lookup leaves behind.
pub open spec fn after_lookup(state: Option<i32>, detected: usize) -> Option<i32> {
    Some(lookup_result(state, detected))
}

/// The state after one lookup for each entry of `detections`, in order, where
/// entry `i` is what the platform would report at lookup `i`.
pub open spec fn after_lookups(state: Option<i32>, detections: Seq<usize>) -> Option<i32>
    decreases detections.len(),
{
    if detections.len() == 0 {
        state
    } else {
        after_lookup(after_lookups(state, detections.drop_last()), detections.last())
    }
}

/// What lookup `i` of such a run returns.
pub open spec fn nth_lookup_result(state: Option<i32>, detections: Seq<usize>, i: int) -> i32 {
    lookup_result(after_lookups(state, detections.take(i)), detections[i])
}

/// The number that the low 32 bits of `n` spell when read as a signed number.
pub open spec fn low_32_bits_signed(n: int) -> int {
    let low = n % 0x1_0000_0000;
    if low < 0x8000_0000 {
        low
    } else {
        low - 0x1_0000_0000
    }
}

/// A count that fits in `i32` is kept as it is.
pub proof fn lemma_count_from_in_range(detected: usize)
    requires
        detected <= i32::MAX,
    ensures
        count_from(detected) == detected,
{
}

/// Whatever the platform reported, the count kept is its low 32 bits read as
/// a signed number.
pub proof fn lemma_count_from_wraps(detected: usize)
    ensures
        count_from(detected) == low_32_bits_signed(detected as int),
{
    let wide = detected as u64;
    let low = wide % 0x1_0000_0000u64;
    assert(low == wide % 0x1_0000_0000u64 ==> {
        &&& low < 0x8000_0000u64 ==> (wide as i32) as i64 == low as i64
        &&& low >= 0x8000_0000u64 ==> ((wide as i32) as i64) + 0x1_0000_0000i64 == low as i64
    }) by (bit_vector);
}

/// A state that holds a count is terminal: no run of lookups changes it.
pub proof fn lemma_computed_is_terminal(count: i32, detections: Seq<usize>)
    ensures
        after_lookups(Some(count), detections) == Some(count),
    decreases detections.len(),
{
    if detections.len() > 0 {
        lemma_computed_is_terminal(count, detections.drop_last());
    }
}

/// After at least one lookup the state holds what the first lookup returned.
pub proof fn lemma_first_lookup_is_kept(state: Option<i32>, detections: Seq<usize>)
    requires
        detections.len() > 0,
    ensures
        after_lookups(state, detections) == Some(lookup_result(state, detections[0])),
    decreases detections.len(),
{
    let front = detections.drop_last();
    if front.len() > 0 {
        lemma_first_lookup_is_kept(state, front);
    } else {
        assert(after_lookups(state, front) == state);
    }
}

/// Lookups made one after the other all return the same count, that of the
/// first, whatever the platform would report in between.
pub proof fn lemma_lookups_agree(state: Option<i32>, detections: Seq<usize>, i: int, j: int)
    requires
        0 <= i < detections.len(),
        0 <= j < detections.len(),
    ensures
        nth_lookup_result(state, detections, i) == nth_lookup_result(state, detections, j),
        nth_lookup_result(state, detections, i) == lookup_result(state, detections[0]),
{
    assert(detections.take(0).len() == 0);
    if i > 0 {
        lemma_first_lookup_is_kept(state, detections.take(i));
    }
    if j > 0 {
        lemma_first_lookup_is_kept(state, detections.take(j));
    }
}

/// With nothing cached, whichever lookup comes first decides: all lookups
/// return the count made from its detection, and that count stays cached.
pub proof fn lemma_first_caller_wins(detections: Seq<usize>, i: int)
    requires
        0 <= i < detections.len(),
    ensures
        nth_lookup_result(None, detections, i) == count_from(detections[0]),
        after_lookups(None, detections) == Some(count_from(detections[0])),
{
    lemma_lookups_agree(None, detections, i, 0);
    lemma_first_lookup_is_kept(None, detections);
}

/// Cache of the number of logical cores.
#[derive(Debug)]
pub struct CpuCountCache {
    cached: Option<i32>,
}

impl Default for CpuCountCache {
    /// A cache that holds nothing yet.
    fn default() -> (cache: Self)
        ensures
            cache@ is None,
    {
        CpuCountCache::new()
    }
}

impl View for CpuCountCache {
    type V = Option<i32>;

    /// `None` while nothing was detected, then the count.
    closed spec fn view(&self) -> Option<i32> {
        self.cached
    }
}

impl CpuCountCache {
    /// A cache that holds nothing yet.
    pub fn new() -> (cache: Self)
        ensures
            cache@ is None,
    {
        CpuCountCache { cached: None }
    }

    /// The cached count, if any. Asks nothing and changes nothing.
    pub fn cached(&self) -> (count: Option<i32>)
        ensures
            count == self@,
    {
        self.cached
    }

    /// One lookup, given what the platform reports now: returns the cached
    /// count where there is one, else stores the count made from `detected`
    /// and returns it.
    pub fn get_or_store(&mut self, detected: usize) -> (count: i32)
        ensures
            count == lookup_result(old(self)@, detected),
            final(self)@ == after_lookup(old(self)@, detected),
    {
        match self.cached {
            Some(count) => count,
            None => {
                let count = #[verifier::truncate] (detected as i32);
                self.cached = Some(count);
                count
            },
        }
    }
}

/// The number of logical cores that `num_cpus::get` reports at this moment.
///
/// The answer depends on the machine, on the affinity of the calling thread
/// and on cgroup limits, and may differ from call to call. The crate
/// documents a count of at least one, but on some targets it hands on the
/// operating system's answer as it is, so the contract claims nothing of the
/// count.
#[verifier::external_body]
fn detect_logical_cores() -> (detected: usize) {
    num_cpus::get()
}

/// The number of logical cores, from the cache.
///
/// With a count cached, returns it and leaves the cache as it is, without
/// asking the platform. With nothing cached, asks the platform once, stores
/// the count made from its answer and returns it. Either way the cache holds
/// the returned count afterwards.
#[allow(non_snake_case)]
pub fn GetCpuCount(cache: &mut CpuCountCache) -> (count: i32)
    ensures
        exists|detected: usize|
            count == #[trigger] lookup_result(old(cache)@, detected) && final(cache)@
                == after_lookup(old(cache)@, detected),
        final(cache)@ == Some(count),
        old(cache)@ matches Some(kept) ==> count == kept && final(cache)@ == old(cache)@,
{
    match cache.cached() {
        Some(count) => {
            // Any detection is a witness here: a cached count ignores it.
            assert(count == lookup_result(cache@, 0));
            count
        },
        None => {
            let detected = detect_logical_cores();
            cache.get_or_store(detected)
        },
    }
}

} // verus!
