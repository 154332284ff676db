//! The pending aggregate of observability events between two flushes: the
//! request keys it holds, the query keys with their counters, and the latest
//! storage sample of each project. The key count is bounded: an event for a
//! key already held is always aggregated, and a new key is only taken while
//! fewer than `MAX_PENDING_KEYS` keys are held. Latencies are floating point
//! and are kept by the caller beside each key, at the index reported here.
use vstd::prelude::*;
use crate::observability::{MAX_PENDING_KEYS, QueryCounters, counters_after, record_query};
use crate::text::str_eq;

verus! {

/// The key of a request aggregate: minute bucket, project, method, route
/// label and status class.
#[derive(Clone, Debug)]
pub struct HttpKey {
    pub bucket_start_ms: i64,
    pub project_id: u128,
    pub method: String,
    pub route: String,
    pub status_class: i16,
}

pub open spec fn http_key_view(k: HttpKey) -> (i64, u128, Seq<char>, Seq<char>, i16) {
    (k.bucket_start_ms, k.project_id, k.method@, k.route@, k.status_class)
}

/// The key of a query aggregate: minute bucket, project and query
/// fingerprint.
#[derive(Clone, Debug)]
pub struct QueryKey {
    pub bucket_start_ms: i64,
    pub project_id: u128,
    pub fingerprint: String,
}

pub open spec fn query_key_view(k: QueryKey) -> (i64, u128, Seq<char>) {
    (k.bucket_start_ms, k.project_id, k.fingerprint@)
}

/// A project's storage size as sampled at some instant.
#[derive(Clone, Copy, Debug, PartialEq, Eq, Structural)]
pub struct StorageSample {
    pub project_id: u128,
    pub logical_database_bytes: u64,
    pub sampled_at_ms: i64,
}

/// No value occurs twice.
pub open spec fn distinct<T>(s: Seq<T>) -> bool {
    forall|i: int, j: int| 0 <= i < j < s.len() ==> s[i] != s[j]
}

/// The counters of a query that has not run yet.
pub open spec fn no_counters() -> QueryCounters {
    QueryCounters { executions: 0, errors: 0, rows_returned: 0, rows_affected: 0 }
}

/// The events aggregated since the last flush.
#[derive(Debug)]
pub struct PendingAggregate {
    http: Vec<HttpKey>,
    query_keys: Vec<QueryKey>,
    query_counters: Vec<QueryCounters>,
    storage: Vec<StorageSample>,
}

impl PendingAggregate {
    /// The request keys held, in the order they were taken.
    pub closed spec fn http_view(self) -> Seq<(i64, u128, Seq<char>, Seq<char>, i16)> {
        self.http@.map_values(|k: HttpKey| http_key_view(k))
    }

    /// The query keys held, in the order they were taken.
    pub closed spec fn query_view(self) -> Seq<(i64, u128, Seq<char>)> {
        self.query_keys@.map_values(|k: QueryKey| query_key_view(k))
    }

    /// The counters of each query key, at the key's index.
    pub closed spec fn counters_view(self) -> Seq<QueryCounters> {
        self.query_counters@
    }

    /// The projects whose storage was sampled, in the order they were taken.
    pub closed spec fn storage_projects(self) -> Seq<u128> {
        self.storage@.map_values(|s: StorageSample| s.project_id)
    }

    /// The storage sample kept for each project, at the project's index.
    pub closed spec fn storage_view(self) -> Seq<StorageSample> {
        self.storage@
    }

    /// How many keys are held, over the three kinds.
    pub open spec fn key_count(self) -> nat {
        self.http_view().len() + self.query_view().len() + self.storage_projects().len()
    }

    /// Every key is held once, each query key has its counters, and no more
    /// keys are held than the bound.
    pub open spec fn well_formed(self) -> bool {
        &&& distinct(self.http_view())
        &&& distinct(self.query_view())
        &&& distinct(self.storage_projects())
        &&& self.counters_view().len() == self.query_view().len()
        &&& self.storage_view().len() == self.storage_projects().len()
        &&& forall|i: int|
            0 <= i < self.storage_view().len() ==> #[trigger] self.storage_view()[i].project_id
                == self.storage_projects()[i]
        &&& self.key_count() <= MAX_PENDING_KEYS
    }

    /// An empty aggregate.
    pub fn new() -> (r: PendingAggregate)
        ensures
            r.well_formed(),
            r.http_view().len() == 0,
            r.query_view().len() == 0,
            r.storage_projects().len() == 0,
    {
        let r = PendingAggregate {
            http: Vec::new(),
            query_keys: Vec::new(),
            query_counters: Vec::new(),
            storage: Vec::new(),
        };
        proof {
            assert(r.http_view() =~= Seq::empty());
            assert(r.query_view() =~= Seq::empty());
            assert(r.storage_projects() =~= Seq::empty());
        }
        r
    }

    /// How many keys are held.
    pub fn key_total(&self) -> (r: usize)
        requires
            self.well_formed(),
        ensures
            r == self.key_count(),
    {
        proof {
            assert(self.http_view().len() == self.http@.len());
            assert(self.query_view().len() == self.query_keys@.len());
            assert(self.storage_projects().len() == self.storage@.len());
        }
        self.http.len() + self.query_keys.len() + self.storage.len()
    }

    /// The counters kept at a query index, if there is one.
    pub fn counters_at(&self, i: usize) -> (r: Option<QueryCounters>)
        requires
            self.well_formed(),
        ensures
            r == (if i < self.counters_view().len() {
                Some(self.counters_view()[i as int])
            } else {
                None
            }),
    {
        if i < self.query_counters.len() {
            Some(self.query_counters[i])
        } else {
            None
        }
    }

    /// The storage sample kept at a project index, if there is one.
    pub fn storage_at(&self, i: usize) -> (r: Option<StorageSample>)
        requires
            self.well_formed(),
        ensures
            r == (if i < self.storage_view().len() {
                Some(self.storage_view()[i as int])
            } else {
                None
            }),
    {
        if i < self.storage.len() {
            Some(self.storage[i])
        } else {
            None
        }
    }

    /// Aggregates a request event. A held key is found where it is; a new
    /// key is taken at the end while fewer than `MAX_PENDING_KEYS` keys are
    /// held, and dropped (`None`) otherwise. The result is the index where the
    /// caller keeps the key's latency.
    pub fn aggregate_http(&mut self, key: HttpKey) -> (r: Option<usize>)
        requires
            old(self).well_formed(),
        ensures
            final(self).well_formed(),
            final(self).query_view() == old(self).query_view(),
            final(self).counters_view() == old(self).counters_view(),
            final(self).storage_view() == old(self).storage_view(),
            final(self).storage_projects() == old(self).storage_projects(),
            old(self).http_view().contains(http_key_view(key)) ==> final(self).http_view()
                == old(self).http_view() && (r matches Some(i) && i < old(self).http_view().len()
                && old(self).http_view()[i as int] == http_key_view(key)),
            !old(self).http_view().contains(http_key_view(key)) && old(self).key_count()
                < MAX_PENDING_KEYS ==> final(self).http_view() == old(self).http_view().push(
                http_key_view(key),
            ) && r == Some(old(self).http_view().len() as usize),
            !old(self).http_view().contains(http_key_view(key)) && old(self).key_count()
                >= MAX_PENDING_KEYS ==> final(self).http_view() == old(self).http_view() && r
                is None,
    {
        let n = self.http.len();
        let mut i: usize = 0;
        while i < n
            invariant
                *self == *old(self),
                old(self).well_formed(),
                n == self.http@.len(),
                i <= n,
                self.http_view().len() == n,
                forall|k: int| 0 <= k < i ==> self.http_view()[k] != http_key_view(key),
            decreases n - i,
        {
            let held = &self.http[i];
            if held.bucket_start_ms == key.bucket_start_ms && held.project_id == key.project_id
                && str_eq(held.method.as_str(), key.method.as_str()) && str_eq(
                held.route.as_str(),
                key.route.as_str(),
            ) && held.status_class == key.status_class {
                proof {
                    assert(self.http_view()[i as int] == http_key_view(key));
                }
                return Some(i);
            }
            proof {
                assert(self.http_view()[i as int] == http_key_view(self.http@[i as int]));
            }
            i = i + 1;
        }
        proof {
            assert(!self.http_view().contains(http_key_view(key)));
        }
        let total = self.key_total();
        if total >= MAX_PENDING_KEYS {
            return None;
        }
        let ghost before = self.http_view();
        self.http.push(key);
        proof {
            assert(self.http_view() =~= before.push(http_key_view(key)));
        }
        Some(n)
    }

    /// Aggregates one execution of a query (see `counters_after`). A held key
    /// has its counters updated where it is; a new key is taken at the end,
    /// starting from no counters, while fewer than `MAX_PENDING_KEYS` keys are
    /// held, and dropped (`None`) otherwise. The result is the index where the
    /// caller keeps the key's latency.
    pub fn aggregate_query(
        &mut self,
        key: QueryKey,
        failed: bool,
        rows_returned: u64,
        rows_affected: u64,
    ) -> (r: Option<usize>)
        requires
            old(self).well_formed(),
        ensures
            final(self).well_formed(),
            final(self).http_view() == old(self).http_view(),
            final(self).storage_view() == old(self).storage_view(),
            final(self).storage_projects() == old(self).storage_projects(),
            old(self).query_view().contains(query_key_view(key)) ==> final(self).query_view()
                == old(self).query_view() && (r matches Some(i) && i < old(self).query_view().len()
                && old(self).query_view()[i as int] == query_key_view(key)
                && final(self).counters_view() == old(self).counters_view().update(
                i as int,
                counters_after(old(self).counters_view()[i as int], failed, rows_returned, rows_affected),
            )),
            !old(self).query_view().contains(query_key_view(key)) && old(self).key_count()
                < MAX_PENDING_KEYS ==> final(self).query_view() == old(self).query_view().push(
                query_key_view(key),
            ) && final(self).counters_view() == old(self).counters_view().push(
                counters_after(no_counters(), failed, rows_returned, rows_affected),
            ) && r == Some(old(self).query_view().len() as usize),
            !old(self).query_view().contains(query_key_view(key)) && old(self).key_count()
                >= MAX_PENDING_KEYS ==> final(self).query_view() == old(self).query_view()
                && final(self).counters_view() == old(self).counters_view() && r is None,
    {
        let n = self.query_keys.len();
        let mut i: usize = 0;
        while i < n
            invariant
                *self == *old(self),
                old(self).well_formed(),
                n == self.query_keys@.len(),
                i <= n,
                self.query_view().len() == n,
                self.counters_view().len() == n,
                forall|k: int| 0 <= k < i ==> self.query_view()[k] != query_key_view(key),
            decreases n - i,
        {
            let held = &self.query_keys[i];
            if held.bucket_start_ms == key.bucket_start_ms && held.project_id == key.project_id
                && str_eq(held.fingerprint.as_str(), key.fingerprint.as_str()) {
                proof {
                    assert(self.query_view()[i as int] == query_key_view(key));
                }
                let updated = record_query(self.query_counters[i], failed, rows_returned, rows_affected);
                self.query_counters.set(i, updated);
                return Some(i);
            }
            proof {
                assert(self.query_view()[i as int] == query_key_view(self.query_keys@[i as int]));
            }
            i = i + 1;
        }
        proof {
            assert(!self.query_view().contains(query_key_view(key)));
        }
        let total = self.key_total();
        if total >= MAX_PENDING_KEYS {
            return None;
        }
        let ghost before = self.query_view();
        let start = QueryCounters { executions: 0, errors: 0, rows_returned: 0, rows_affected: 0 };
        let counters = record_query(start, failed, rows_returned, rows_affected);
        self.query_keys.push(key);
        self.query_counters.push(counters);
        proof {
            assert(self.query_view() =~= before.push(query_key_view(key)));
        }
        Some(n)
    }

    /// Keeps a storage sample as its project's latest. A project already held
    /// has its sample replaced where it is; a new project is taken at the end
    /// while fewer than `MAX_PENDING_KEYS` keys are held, and the sample is
    /// dropped (`None`) otherwise. The result is the project's index.
    pub fn aggregate_storage(&mut self, sample: StorageSample) -> (r: Option<usize>)
        requires
            old(self).well_formed(),
        ensures
            final(self).well_formed(),
            final(self).http_view() == old(self).http_view(),
            final(self).query_view() == old(self).query_view(),
            final(self).counters_view() == old(self).counters_view(),
            old(self).storage_projects().contains(sample.project_id) ==> final(self).storage_projects()
                == old(self).storage_projects() && (r matches Some(i) && i < old(self).storage_view().len()
                && old(self).storage_projects()[i as int] == sample.project_id
                && final(self).storage_view() == old(self).storage_view().update(i as int, sample)),
            !old(self).storage_projects().contains(sample.project_id) && old(self).key_count()
                < MAX_PENDING_KEYS ==> final(self).storage_projects() == old(self).storage_projects().push(sample.project_id)
                && final(self).storage_view() == old(self).storage_view().push(sample)
                && r == Some(old(self).storage_view().len() as usize),
            !old(self).storage_projects().contains(sample.project_id) && old(self).key_count()
                >= MAX_PENDING_KEYS ==> final(self).storage_view() == old(self).storage_view()
                && final(self).storage_projects() == old(self).storage_projects() && r is None,
    {
        let n = self.storage.len();
        let mut i: usize = 0;
        while i < n
            invariant
                *self == *old(self),
                old(self).well_formed(),
                n == self.storage@.len(),
                i <= n,
                self.storage_projects().len() == n,
                self.storage_view().len() == n,
                forall|k: int| 0 <= k < i ==> self.storage_projects()[k] != sample.project_id,
            decreases n - i,
        {
            proof {
                assert(self.storage_projects()[i as int] == self.storage@[i as int].project_id);
            }
            if self.storage[i].project_id == sample.project_id {
                let ghost before = *self;
                self.storage.set(i, sample);
                proof {
                    assert(self.storage_projects() =~= before.storage_projects());
                    assert(self.storage_view() =~= before.storage_view().update(i as int, sample));
                }
                return Some(i);
            }
            i = i + 1;
        }
        proof {
            assert(!self.storage_projects().contains(sample.project_id));
        }
        let total = self.key_total();
        if total >= MAX_PENDING_KEYS {
            return None;
        }
        let ghost before = self.storage_projects();
        self.storage.push(sample);
        proof {
            assert(self.storage_projects() =~= before.push(sample.project_id));
        }
        Some(n)
    }
}


/// An observability event as it reaches the pending aggregate; the latency
/// it carries stays with the caller.
#[derive(Debug)]
pub enum PendingEvent {
    Http(HttpKey),
    Query { key: QueryKey, failed: bool, rows_returned: u64, rows_affected: u64 },
    Storage(StorageSample),
}

/// The dropped-event counter after one more drop; it wraps as an atomic
/// `fetch_add` does.
pub open spec fn one_more_drop(dropped: u64) -> u64 {
    if dropped == u64::MAX {
        0
    } else {
        (dropped + 1) as u64
    }
}

impl PendingAggregate {
    /// Whether the aggregate already holds the event's key.
    pub open spec fn holds(self, event: PendingEvent) -> bool {
        match event {
            PendingEvent::Http(k) => self.http_view().contains(http_key_view(k)),
            PendingEvent::Query { key, .. } => self.query_view().contains(query_key_view(key)),
            PendingEvent::Storage(sample) => self.storage_projects().contains(sample.project_id),
        }
    }

    /// The two aggregates hold the same keys, counters and samples.
    pub open spec fn same_contents(a: PendingAggregate, b: PendingAggregate) -> bool {
        &&& a.http_view() == b.http_view()
        &&& a.query_view() == b.query_view()
        &&& a.counters_view() == b.counters_view()
        &&& a.storage_projects() == b.storage_projects()
        &&& a.storage_view() == b.storage_view()
    }

    /// `after` is `before` with the event folded in: a request key is added if
    /// new; a query key is added if new, and its counters count one more
    /// execution; a storage sample replaces its project's sample or is added.
    /// Nothing else changes.
    pub open spec fn folded(before: PendingAggregate, after: PendingAggregate, event: PendingEvent) -> bool {
        match event {
            PendingEvent::Http(k) => {
                &&& after.query_view() == before.query_view()
                &&& after.counters_view() == before.counters_view()
                &&& after.storage_projects() == before.storage_projects()
                &&& after.storage_view() == before.storage_view()
                &&& after.http_view() == if before.http_view().contains(http_key_view(k)) {
                    before.http_view()
                } else {
                    before.http_view().push(http_key_view(k))
                }
            },
            PendingEvent::Query { key, failed, rows_returned, rows_affected } => {
                &&& after.http_view() == before.http_view()
                &&& after.storage_projects() == before.storage_projects()
                &&& after.storage_view() == before.storage_view()
                &&& if before.query_view().contains(query_key_view(key)) {
                    &&& after.query_view() == before.query_view()
                    &&& exists|i: int|
                        0 <= i < before.query_view().len() && before.query_view()[i] == query_key_view(key)
                            && after.counters_view() == before.counters_view().update(
                            i,
                            counters_after(before.counters_view()[i], failed, rows_returned, rows_affected),
                        )
                } else {
                    &&& after.query_view() == before.query_view().push(query_key_view(key))
                    &&& after.counters_view() == before.counters_view().push(
                        counters_after(no_counters(), failed, rows_returned, rows_affected),
                    )
                }
            },
            PendingEvent::Storage(sample) => {
                &&& after.http_view() == before.http_view()
                &&& after.query_view() == before.query_view()
                &&& after.counters_view() == before.counters_view()
                &&& if before.storage_projects().contains(sample.project_id) {
                    &&& after.storage_projects() == before.storage_projects()
                    &&& exists|i: int|
                        0 <= i < before.storage_view().len() && before.storage_projects()[i]
                            == sample.project_id && after.storage_view() == before.storage_view().update(i, sample)
                } else {
                    &&& after.storage_projects() == before.storage_projects().push(sample.project_id)
                    &&& after.storage_view() == before.storage_view().push(sample)
                }
            },
        }
    }

    /// Folds one event into the aggregate. An event whose key is held, or that
    /// arrives while fewer than `MAX_PENDING_KEYS` keys are held, is folded in
    /// (see `folded`) and the result is its key's index; any other event leaves
    /// the aggregate as it was, counts one more drop and gives `None`. The
    /// aggregate never holds more than `MAX_PENDING_KEYS` keys.
    pub fn aggregate_event(&mut self, event: PendingEvent, dropped: &mut u64) -> (r: Option<usize>)
        requires
            old(self).well_formed(),
        ensures
            final(self).well_formed(),
            final(self).key_count() <= MAX_PENDING_KEYS,
            (r is Some) == (old(self).holds(event) || old(self).key_count() < MAX_PENDING_KEYS),
            r is Some ==> PendingAggregate::folded(*old(self), *final(self), event) && *final(dropped)
                == *old(dropped),
            r is None ==> PendingAggregate::same_contents(*old(self), *final(self)) && *final(dropped)
                == one_more_drop(*old(dropped)),
    {
        let r = match event {
            PendingEvent::Http(k) => self.aggregate_http(k),
            PendingEvent::Query { key, failed, rows_returned, rows_affected } => self.aggregate_query(
                key,
                failed,
                rows_returned,
                rows_affected,
            ),
            PendingEvent::Storage(sample) => self.aggregate_storage(sample),
        };
        if r.is_none() {
            if *dropped == u64::MAX {
                *dropped = 0;
            } else {
                *dropped = *dropped + 1;
            }
        }
        r
    }
}

} // verus!
