//! The job cache: a bounded table of jobs that forgets each job some time
//! after it was put in.
use crate::service::job::{JobInfo, JobInfoView};
use vstd::prelude::*;

verus! {

/// moka's `sync::Cache`, carried through as it is: what is inside one is
/// known only through the names and the functions below.
#[verifier::external_type_specification]
#[verifier::external_body]
#[verifier::reject_recursive_types(K)]
#[verifier::reject_recursive_types(V)]
#[verifier::reject_recursive_types(S)]
pub struct ExCache<K, V, S>(moka::sync::Cache<K, V, S>);

/// The jobs that the cache may still give out, each under its id. The cache
/// drops entries by itself, when it is full and as they grow old: a job
/// that is in this map may be gone from the cache, but the cache never
/// gives out a job that is not in the map.
pub uninterp spec fn cached_jobs(cache: moka::sync::Cache<i32, JobInfo>) -> Map<i32, JobInfoView>;

/// The limits that the cache was made with: the number of entries that
/// it holds at most, and the time, in seconds, that it keeps an entry after
/// it was put in.
pub uninterp spec fn cache_limits(cache: moka::sync::Cache<i32, JobInfo>) -> (u64, u64);

/// No jobs at all.
pub open spec fn no_jobs() -> Map<i32, JobInfoView> {
    Map::empty()
}

/// Every entry of `now` is an entry of `before`.
pub open spec fn held_within(now: Map<i32, JobInfoView>, before: Map<i32, JobInfoView>) -> bool {
    forall|k: i32| #[trigger] now.contains_key(k) ==> before.contains_key(k) && now[k] == before[k]
}

/// The longest time to live that the cache takes: a thousand years of 365 days, in seconds.
pub const MAX_TIME_TO_LIVE: u64 = 31_536_000_000;

/// moka's `Cache::builder()` with `max_capacity` and `time_to_live`, then
/// `build`: a cache without entries, made to hold `capacity` entries at
/// most and to keep each for `ttl_secs` seconds. `build` panics on a time
/// to live of more than a thousand years, which `requires` keeps out.
#[verifier::external_body]
pub(crate) fn job_cache(capacity: u64, ttl_secs: u64) -> (r: moka::sync::Cache<i32, JobInfo>)
    requires
        ttl_secs <= MAX_TIME_TO_LIVE,
    ensures
        cached_jobs(r) == no_jobs(),
        cache_limits(r) == (capacity, ttl_secs),
{
    moka::sync::Cache::builder().max_capacity(capacity).time_to_live(
        std::time::Duration::from_secs(ttl_secs),
    ).build()
}

/// moka's `Cache::insert`: the entry under `id` becomes `job`. The cache may
/// drop this entry or others at once, to keep to its capacity, so all that is
/// sure is that it holds nothing but `job` under `id` and what it held
/// before. What the cache was made with stays.
#[verifier::external_body]
pub(crate) fn cache_insert(cache: &mut moka::sync::Cache<i32, JobInfo>, id: i32, job: JobInfo)
    ensures
        held_within(cached_jobs(*final(cache)), cached_jobs(*old(cache)).insert(id, job@)),
        cache_limits(*final(cache)) == cache_limits(*old(cache)),
{
    cache.insert(id, job)
}

/// moka's `Cache::get`: a clone of the job under `id`, which is then one of
/// the jobs the cache may give out; `None` where it holds none under `id`,
/// or has dropped it.
#[verifier::external_body]
pub(crate) fn cache_get(cache: &moka::sync::Cache<i32, JobInfo>, id: i32) -> (r: Option<JobInfo>)
    ensures
        r matches Some(job) ==> cached_jobs(*cache).contains_key(id) && cached_jobs(*cache)[id]
            == job@,
{
    cache.get(&id)
}

/// moka's `Cache::iter`, collected: ids and clones of their jobs, in an
/// order that the cache chooses. Each is an entry that the cache may give
/// out, and no entry comes twice.
#[verifier::external_body]
pub(crate) fn cache_entries(cache: &moka::sync::Cache<i32, JobInfo>) -> (r: Vec<(i32, JobInfo)>)
    ensures
        forall|i: int|
            0 <= i < r@.len() ==> cached_jobs(*cache).contains_key((#[trigger] r@[i]).0)
                && cached_jobs(*cache)[r@[i].0] == r@[i].1@,
        forall|i: int, j: int| 0 <= i < j < r@.len() ==> (#[trigger] r@[i]).0 != (#[trigger] r@[j]).0,
{
    cache.iter().map(|(id, job)| (*id, job)).collect()
}

} // verus!
