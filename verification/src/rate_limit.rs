//! Request admission against token buckets: which bucket policy a dimension
//! uses, how a mixed batch of checks is split into runs of one policy, and
//! what the limiter's decisions mean for the request.
use vstd::prelude::*;

verus! {

/// What a rate limit is counted against.
#[derive(Clone, Copy, Debug, PartialEq, Eq, Structural)]
pub enum RateDimension {
    Ip,
    Project,
    User,
    ApiKey,
    AuthProject,
    AuthUser,
    AuthApiKey,
}

/// The limiter's answer to one check.
#[derive(Clone, Copy, Debug, PartialEq, Eq, Structural)]
pub enum RateLimitDecision {
    Allowed,
    Denied { retry_after_ms: u64 },
}

/// Failures of the limiter.
#[derive(Clone, Copy, Debug, PartialEq, Eq, Structural)]
pub enum RateLimitError {
    InvalidConfiguration,
    InvalidCost,
    Unavailable,
}

/// The dimensions that anonymous and authentication traffic is admitted
/// under. They keep the conservative pre-authentication bucket policy.
pub open spec fn pre_auth(dimension: RateDimension) -> bool {
    match dimension {
        RateDimension::Ip | RateDimension::AuthProject | RateDimension::AuthUser
        | RateDimension::AuthApiKey => true,
        _ => false,
    }
}

/// Whether a dimension uses the pre-authentication bucket policy.
pub fn is_pre_auth_dimension(dimension: RateDimension) -> (r: bool)
    ensures
        r == pre_auth(dimension),
{
    match dimension {
        RateDimension::Ip | RateDimension::AuthProject | RateDimension::AuthUser
        | RateDimension::AuthApiKey => true,
        _ => false,
    }
}

/// The secret that rate-limit keys are derived under must hold at least 32
/// bytes.
pub fn validate_namespace_secret(namespace_secret: &[u8]) -> (r: Result<(), RateLimitError>)
    ensures
        r == (if namespace_secret@.len() >= 32 {
            Ok(())
        } else {
            Err(RateLimitError::InvalidConfiguration)
        }),
{
    if namespace_secret.len() < 32 {
        Err(RateLimitError::InvalidConfiguration)
    } else {
        Ok(())
    }
}

/// A batch of checks holds 1 to 16 keys, no key twice.
pub open spec fn batch_ok(keys: Seq<Seq<u8>>) -> bool {
    &&& 1 <= keys.len() <= 16
    &&& forall|i: int, j: int| 0 <= i < j < keys.len() ==> #[trigger] keys[i] != #[trigger] keys[j]
}

fn same_bytes(a: &Vec<u8>, b: &Vec<u8>) -> (r: bool)
    ensures
        r == (a@ == b@),
{
    if a.len() != b.len() {
        return false;
    }
    let mut i: usize = 0;
    while i < a.len()
        invariant
            i <= a@.len() == b@.len(),
            forall|k: int| 0 <= k < i ==> a@[k] == b@[k],
        decreases a@.len() - i,
    {
        if a[i] != b[i] {
            return false;
        }
        i = i + 1;
    }
    proof {
        assert(a@ =~= b@);
    }
    true
}

pub open spec fn key_views(keys: Seq<Vec<u8>>) -> Seq<Seq<u8>> {
    keys.map_values(|k: Vec<u8>| k@)
}

/// Admits a batch of derived keys: between 1 and 16 of them, all distinct.
pub fn validate_batch(keys: &[Vec<u8>]) -> (r: Result<(), RateLimitError>)
    ensures
        r == (if batch_ok(key_views(keys@)) {
            Ok(())
        } else {
            Err(RateLimitError::InvalidCost)
        }),
{
    let ghost kv = key_views(keys@);
    let n = keys.len();
    if n == 0 || n > 16 {
        return Err(RateLimitError::InvalidCost);
    }
    let mut j: usize = 0;
    while j < n
        invariant
            n == keys@.len(),
            kv == key_views(keys@),
            j <= n,
            forall|a: int, b: int| 0 <= a < b < j ==> #[trigger] kv[a] != #[trigger] kv[b],
        decreases n - j,
    {
        let mut i: usize = 0;
        while i < j
            invariant
                n == keys@.len(),
                kv == key_views(keys@),
                i <= j < n,
                forall|a: int, b: int| 0 <= a < b < j ==> #[trigger] kv[a] != #[trigger] kv[b],
                forall|a: int| 0 <= a < i ==> #[trigger] kv[a] != kv[j as int],
            decreases j - i,
        {
            if same_bytes(&keys[i], &keys[j]) {
                proof {
                    assert(kv[i as int] == kv[j as int]);
                }
                return Err(RateLimitError::InvalidCost);
            }
            i = i + 1;
        }
        j = j + 1;
    }
    Ok(())
}

/// The runs `[start, end)` that a batch is checked in: maximal stretches of
/// consecutive checks under the same bucket policy, in order, covering the
/// whole batch.
pub open spec fn runs_ok(dimensions: Seq<RateDimension>, runs: Seq<(usize, usize)>) -> bool {
    &&& dimensions.len() == 0 ==> runs.len() == 0
    &&& dimensions.len() > 0 ==> runs.len() > 0 && runs[0].0 == 0 && runs.last().1
        == dimensions.len()
    &&& forall|r: int| 0 <= r < runs.len() ==> (#[trigger] runs[r]).0 < runs[r].1
    &&& forall|r: int| 0 < r < runs.len() ==> (#[trigger] runs[r]).0 == runs[r - 1].1
    &&& forall|r: int, i: int|
        0 <= r < runs.len() && runs[r].0 <= i < runs[r].1 ==> pre_auth(#[trigger] dimensions[i])
            == pre_auth(dimensions[(#[trigger] runs[r]).0 as int])
    &&& forall|r: int|
        0 < r < runs.len() ==> pre_auth(dimensions[(#[trigger] runs[r]).0 as int]) != pre_auth(
            dimensions[runs[r].0 - 1],
        )
}

/// Splits a batch of checks into runs of one bucket policy.
pub fn policy_runs(dimensions: &[RateDimension]) -> (runs: Vec<(usize, usize)>)
    ensures
        runs_ok(dimensions@, runs@),
{
    let n = dimensions.len();
    let mut runs: Vec<(usize, usize)> = Vec::new();
    let mut start: usize = 0;
    while start < n
        invariant
            start <= n == dimensions@.len(),
            start == 0 <==> runs@.len() == 0,
            runs@.len() > 0 ==> runs@[0].0 == 0 && runs@.last().1 == start,
            forall|r: int| 0 <= r < runs@.len() ==> (#[trigger] runs@[r]).0 < runs@[r].1,
            forall|r: int| 0 < r < runs@.len() ==> (#[trigger] runs@[r]).0 == runs@[r - 1].1,
            forall|r: int, i: int|
                0 <= r < runs@.len() && runs@[r].0 <= i < runs@[r].1 ==> pre_auth(
                    #[trigger] dimensions@[i],
                ) == pre_auth(dimensions@[(#[trigger] runs@[r]).0 as int]),
            forall|r: int|
                0 < r < runs@.len() ==> pre_auth(dimensions@[(#[trigger] runs@[r]).0 as int])
                    != pre_auth(dimensions@[runs@[r].0 - 1]),
            0 < start < n ==> pre_auth(dimensions@[start as int]) != pre_auth(
                dimensions@[start - 1],
            ),
        decreases n - start,
    {
        let policy = is_pre_auth_dimension(dimensions[start]);
        let mut end = start + 1;
        while end < n && is_pre_auth_dimension(dimensions[end]) == policy
            invariant
                start < end <= n == dimensions@.len(),
                policy == pre_auth(dimensions@[start as int]),
                forall|i: int| start <= i < end ==> pre_auth(#[trigger] dimensions@[i]) == policy,
            decreases n - end,
        {
            end = end + 1;
        }
        let ghost before = runs@;
        runs.push((start, end));
        proof {
            assert forall|r: int, i: int|
                0 <= r < runs@.len() && runs@[r].0 <= i < runs@[r].1 implies pre_auth(
                #[trigger] dimensions@[i],
            ) == pre_auth(dimensions@[(#[trigger] runs@[r]).0 as int]) by {
                if r < before.len() {
                    assert(runs@[r] == before[r]);
                }
            }
        }
        start = end;
    }
    runs
}

/// Checking stops after a run whose last decision denied the request.
pub fn batch_denied(batch: &[RateLimitDecision]) -> (r: bool)
    ensures
        r == (batch@.len() > 0 && batch@.last() is Denied),
{
    if batch.len() == 0 {
        false
    } else {
        match batch[batch.len() - 1] {
            RateLimitDecision::Denied { .. } => true,
            RateLimitDecision::Allowed => false,
        }
    }
}

/// The checks of a request, run by bucket policy: the runs still to check,
/// the decisions gathered so far, and whether checking is over. Checking
/// stops after the last run, or after a run whose last decision denied the
/// request.
pub struct RateBatch {
    runs: Vec<(usize, usize)>,
    next: usize,
    decisions: Vec<RateLimitDecision>,
    done: bool,
}

impl RateBatch {
    pub closed spec fn runs_view(&self) -> Seq<(usize, usize)> {
        self.runs@
    }

    /// How many runs were checked.
    pub closed spec fn checked(&self) -> nat {
        self.next as nat
    }

    pub closed spec fn decisions_view(&self) -> Seq<RateLimitDecision> {
        self.decisions@
    }

    pub closed spec fn is_done(&self) -> bool {
        self.done
    }

    pub closed spec fn well_formed(&self) -> bool {
        &&& self.next <= self.runs@.len()
        &&& !self.done ==> self.next < self.runs@.len()
    }

    /// The checks of a batch of dimensions, split into runs of one bucket
    /// policy (see `runs_ok`), none checked yet; an empty batch is over at once.
    pub fn start(dimensions: &[RateDimension]) -> (b: RateBatch)
        ensures
            b.well_formed(),
            runs_ok(dimensions@, b.runs_view()),
            b.checked() == 0,
            b.decisions_view() == Seq::<RateLimitDecision>::empty(),
            b.is_done() == (b.runs_view().len() == 0),
    {
        let runs = policy_runs(dimensions);
        let done = runs.len() == 0;
        RateBatch { runs, next: 0, decisions: Vec::new(), done }
    }

    /// The checks of a batch made one at a time, as a limiter without batch
    /// support does: check `i` is the run `[i, i + 1)`, so checking stops at
    /// the first denial. An empty batch is over at once.
    pub fn one_at_a_time(count: usize) -> (b: RateBatch)
        ensures
            b.well_formed(),
            b.runs_view() == Seq::new(count as nat, |i: int| (i as usize, (i + 1) as usize)),
            b.checked() == 0,
            b.decisions_view() == Seq::<RateLimitDecision>::empty(),
            b.is_done() == (count == 0),
    {
        let mut runs: Vec<(usize, usize)> = Vec::new();
        let mut i: usize = 0;
        while i < count
            invariant
                i <= count,
                runs@ == Seq::new(i as nat, |k: int| (k as usize, (k + 1) as usize)),
            decreases count - i,
        {
            runs.push((i, i + 1));
            i = i + 1;
            proof {
                assert(runs@ =~= Seq::new(i as nat, |k: int| (k as usize, (k + 1) as usize)));
            }
        }
        RateBatch { runs, next: 0, decisions: Vec::new(), done: count == 0 }
    }

    /// The run `[start, end)` to check next, unless checking is over.
    pub fn pending(&self) -> (r: Option<(usize, usize)>)
        requires
            self.well_formed(),
        ensures
            self.is_done() ==> r is None,
            !self.is_done() ==> r == Some(self.runs_view()[self.checked() as int]),
    {
        if self.done {
            None
        } else {
            Some(self.runs[self.next])
        }
    }

    /// Adds the decisions of the run just checked; checking is over after the
    /// last run or once this run's last decision denied the request.
    pub fn record(&mut self, batch: Vec<RateLimitDecision>)
        requires
            old(self).well_formed(),
            !old(self).is_done(),
        ensures
            final(self).well_formed(),
            final(self).runs_view() == old(self).runs_view(),
            final(self).checked() == old(self).checked() + 1,
            final(self).decisions_view() == old(self).decisions_view() + batch@,
            final(self).is_done() == ((batch@.len() > 0 && batch@.last() is Denied) || old(self).checked()
                + 1 == old(self).runs_view().len()),
    {
        let denied = batch_denied(batch.as_slice());
        let total = self.runs.len();
        let next = self.next + 1;
        let last = next == total;
        let mut batch = batch;
        self.decisions.append(&mut batch);
        self.next = next;
        self.done = denied || last;
    }

    /// The decisions gathered, in the order of the checks.
    pub fn decisions(self) -> (r: Vec<RateLimitDecision>)
        ensures
            r@ == self.decisions_view(),
    {
        self.decisions
    }
}

/// What the limiter's answers mean for a request.
#[derive(Clone, Copy, Debug, PartialEq, Eq, Structural)]
pub enum RateVerdict {
    Admit,
    Limited { retry_after_ms: u64 },
    Unavailable,
}

/// The verdict of one check.
pub fn single_check_verdict(outcome: Result<RateLimitDecision, RateLimitError>) -> (r: RateVerdict)
    ensures
        r == match outcome {
            Ok(RateLimitDecision::Allowed) => RateVerdict::Admit,
            Ok(RateLimitDecision::Denied { retry_after_ms }) => RateVerdict::Limited {
                retry_after_ms,
            },
            Err(_) => RateVerdict::Unavailable,
        },
{
    match outcome {
        Ok(RateLimitDecision::Allowed) => RateVerdict::Admit,
        Ok(RateLimitDecision::Denied { retry_after_ms }) => RateVerdict::Limited { retry_after_ms },
        Err(_) => RateVerdict::Unavailable,
    }
}

/// The position of the first denial among the decisions, or `-1`.
pub open spec fn first_denial(decisions: Seq<RateLimitDecision>) -> int
    decreases decisions.len(),
{
    if decisions.len() == 0 {
        -1
    } else if first_denial(decisions.drop_last()) >= 0 {
        first_denial(decisions.drop_last())
    } else if decisions.last() is Denied {
        decisions.len() - 1
    } else {
        -1
    }
}

/// The verdict of the two checks an execution is admitted under (project,
/// then actor). The limiter answers both, or stops at a denial; anything
/// else means it cannot be trusted. The first denial limits the request.
pub open spec fn execution_verdict(decisions: Seq<RateLimitDecision>) -> RateVerdict {
    if decisions.len() != 2 && !(decisions.len() > 0 && decisions.last() is Denied) {
        RateVerdict::Unavailable
    } else if first_denial(decisions) >= 0 {
        RateVerdict::Limited {
            retry_after_ms: decisions[first_denial(decisions)]->retry_after_ms,
        }
    } else {
        RateVerdict::Admit
    }
}

/// Decides an execution request from the limiter's decisions.
pub fn execution_rate_verdict(decisions: &[RateLimitDecision]) -> (r: RateVerdict)
    ensures
        r == execution_verdict(decisions@),
{
    if decisions.len() != 2 && !batch_denied(decisions) {
        return RateVerdict::Unavailable;
    }
    let mut i: usize = 0;
    while i < decisions.len()
        invariant
            i <= decisions@.len(),
            first_denial(decisions@.take(i as int)) == -1,
            !(decisions@.len() != 2 && !(decisions@.len() > 0 && decisions@.last() is Denied)),
        decreases decisions@.len() - i,
    {
        proof {
            assert(decisions@.take(i + 1).drop_last() =~= decisions@.take(i as int));
        }
        match decisions[i] {
            RateLimitDecision::Denied { retry_after_ms } => {
                proof {
                    assert(decisions@.take(i + 1).last() == decisions@[i as int]);
                    assert(first_denial(decisions@.take(i + 1)) == i);
                    lemma_first_denial_prefix(decisions@, i + 1);
                }
                return RateVerdict::Limited { retry_after_ms };
            },
            RateLimitDecision::Allowed => {},
        }
        i = i + 1;
    }
    proof {
        assert(decisions@.take(i as int) =~= decisions@);
    }
    RateVerdict::Admit
}

proof fn lemma_first_denial_prefix(decisions: Seq<RateLimitDecision>, k: int)
    requires
        0 <= k <= decisions.len(),
        first_denial(decisions.take(k)) >= 0,
    ensures
        first_denial(decisions) == first_denial(decisions.take(k)),
        0 <= first_denial(decisions) < k,
    decreases decisions.len() - k,
{
    lemma_first_denial_bounds(decisions.take(k));
    if k < decisions.len() {
        assert(decisions.drop_last().take(k) =~= decisions.take(k));
        lemma_first_denial_prefix(decisions.drop_last(), k);
        assert(decisions.drop_last()[first_denial(decisions.drop_last())] == decisions[first_denial(
            decisions.drop_last(),
        )]);
    } else {
        assert(decisions.take(k) =~= decisions);
    }
}

proof fn lemma_first_denial_bounds(decisions: Seq<RateLimitDecision>)
    ensures
        -1 <= first_denial(decisions) < decisions.len(),
    decreases decisions.len(),
{
    if decisions.len() > 0 {
        lemma_first_denial_bounds(decisions.drop_last());
    }
}

} // verus!
