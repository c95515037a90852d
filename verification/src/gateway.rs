//! Request admission: role-based rate limiting over hourly windows and
//! idempotency keys that refuse a repeated request for 24 hours.
use vstd::prelude::*;
use crate::QuorumCreditContract;

verus! {

/// The role a caller is rate-limited as.
#[derive(Clone, Copy, Debug, PartialEq, Eq, Structural)]
pub enum UserRole {
    Admin,
    User,
    Guest,
}

/// The hourly request allowance of a role.
#[derive(Clone, Copy, Debug, PartialEq, Eq, Structural)]
pub struct RateLimitTier {
    pub role: UserRole,
    pub max_requests_per_hour: u32,
}

/// Length of a rate-limit window, in seconds.
pub const RATE_WINDOW_SECS: u64 = 3_600;

/// Allowance used for a role that no tier names.
pub const DEFAULT_MAX_REQUESTS: u32 = 100;

impl QuorumCreditContract {
    /// The role-based tiers: admins unlimited, users 1000 and guests 100
    /// requests an hour. Installing them also enables rate limiting.
    pub fn setup_role_based_rate_limits() -> (r: (Vec<RateLimitTier>, bool))
        ensures
            r.0@ == seq![
                RateLimitTier { role: UserRole::Admin, max_requests_per_hour: u32::MAX },
                RateLimitTier { role: UserRole::User, max_requests_per_hour: 1000 },
                RateLimitTier { role: UserRole::Guest, max_requests_per_hour: 100 },
            ],
            r.1,
    {
        let mut tiers: Vec<RateLimitTier> = Vec::new();
        tiers.push(RateLimitTier { role: UserRole::Admin, max_requests_per_hour: u32::MAX });
        tiers.push(RateLimitTier { role: UserRole::User, max_requests_per_hour: 1000 });
        tiers.push(RateLimitTier { role: UserRole::Guest, max_requests_per_hour: 100 });
        (tiers, true)
    }
}

/// The allowance of `role`: that of the first tier naming it, else 100.
pub open spec fn tier_max(tiers: Seq<RateLimitTier>, role: UserRole) -> u32
    decreases tiers.len(),
{
    if tiers.len() == 0 {
        DEFAULT_MAX_REQUESTS
    } else if tiers[0].role == role {
        tiers[0].max_requests_per_hour
    } else {
        tier_max(tiers.drop_first(), role)
    }
}

/// The allowance the tiers give `role`.
pub fn max_requests_for(tiers: &Vec<RateLimitTier>, role: UserRole) -> (m: u32)
    ensures
        m == tier_max(tiers@, role),
{
    let mut i: usize = 0;
    assert(tiers@.subrange(0, tiers@.len() as int) == tiers@);
    while i < tiers.len()
        invariant
            i <= tiers@.len(),
            tier_max(tiers@, role) == tier_max(tiers@.subrange(i as int, tiers@.len() as int), role),
        decreases tiers@.len() - i,
    {
        let ghost rest = tiers@.subrange(i as int, tiers@.len() as int);
        assert(rest.drop_first() == tiers@.subrange(i + 1, tiers@.len() as int));
        if tiers[i].role == role {
            return tiers[i].max_requests_per_hour;
        }
        i = i + 1;
    }
    DEFAULT_MAX_REQUESTS
}

/// The admission decision and the window to store (`None`: storage is
/// left as it is).
pub open spec fn rate_decision(
    enabled: bool,
    tiers: Seq<RateLimitTier>,
    role: UserRole,
    now: u64,
    stored: Option<(u64, u32)>,
) -> (bool, Option<(u64, u32)>) {
    let max = tier_max(tiers, role);
    if !enabled || role == UserRole::Admin {
        (true, None)
    } else {
        match stored {
            Some((start, count)) => if now < start + RATE_WINDOW_SECS {
                if count >= max { (false, None) } else { (true, Some((start, (count + 1) as u32))) }
            } else {
                (true, Some((now, 1u32)))
            },
            None => (true, Some((now, 1u32))),
        }
    }
}

impl QuorumCreditContract {
    /// Whether a request by a caller of `role` is admitted at `now`, given the
    /// caller's current window (`stored`: its start and the requests counted in
    /// it). Without rate limiting, and for admins, every request is admitted
    /// and nothing is recorded. Within a window a request is admitted while
    /// fewer than the role's allowance were counted; after it a new window
    /// opens with this request.
    pub fn check_rate_limit(
        enabled: bool,
        tiers: &Vec<RateLimitTier>,
        role: UserRole,
        now: u64,
        stored: Option<(u64, u32)>,
    ) -> (r: (bool, Option<(u64, u32)>))
        requires
            enabled && role != UserRole::Admin && stored is Some ==> (stored->0).0 + RATE_WINDOW_SECS <= u64::MAX,
        ensures
            r == rate_decision(enabled, tiers@, role, now, stored),
            r.1 is Some && tier_max(tiers@, role) >= 1 && (stored is Some ==> (stored->0).1 <= tier_max(tiers@, role))
                ==> (r.1->0).1 <= tier_max(tiers@, role),
    {
        if !enabled {
            return (true, None);
        }
        let max = max_requests_for(tiers, role);
        if role == UserRole::Admin {
            return (true, None);
        }
        match stored {
            Some((start, count)) => {
                if now < start + RATE_WINDOW_SECS {
                    if count >= max {
                        (false, None)
                    } else {
                        (true, Some((start, count + 1)))
                    }
                } else {
                    (true, Some((now, 1)))
                }
            },
            None => (true, Some((now, 1))),
        }
    }
}

/// How long an idempotency key is remembered, in seconds.
pub const IDEMPOTENCY_TTL_SECS: u64 = 86_400;

/// Whether a request with a key first seen at `stored` (if ever) is new at
/// `now`, and the time to record for the key when it is.
pub open spec fn idempotency_decision(stored: Option<u64>, now: u64) -> (bool, Option<u64>) {
    match stored {
        Some(created) => if now < created + IDEMPOTENCY_TTL_SECS { (false, None) } else { (true, Some(now)) },
        None => (true, Some(now)),
    }
}

impl QuorumCreditContract {
    /// Check an idempotency key: a key recorded less than 24 hours ago makes
    /// the request a duplicate; otherwise the request is new and the key is
    /// recorded at `now`.
    pub fn check_idempotency_key(stored: Option<u64>, now: u64) -> (r: (bool, Option<u64>))
        requires
            stored is Some ==> stored->0 + IDEMPOTENCY_TTL_SECS <= u64::MAX,
        ensures
            r == idempotency_decision(stored, now),
    {
        match stored {
            Some(created) => {
                if now < created + IDEMPOTENCY_TTL_SECS {
                    (false, None)
                } else {
                    (true, Some(now))
                }
            },
            None => (true, Some(now)),
        }
    }
}

/// A request admitted under a key is refused as a duplicate by any check
/// of the same key in the 24 hours that follow, and admitted again after.
pub proof fn lemma_idempotent_within_ttl(stored: Option<u64>, now: u64, later: u64)
    requires
        idempotency_decision(stored, now).0,
        now <= later,
    ensures
        idempotency_decision(stored, now).1 == Some(now),
        later < now + IDEMPOTENCY_TTL_SECS ==> !idempotency_decision(idempotency_decision(stored, now).1, later).0,
        later >= now + IDEMPOTENCY_TTL_SECS ==> idempotency_decision(idempotency_decision(stored, now).1, later).0,
{
}

/// Once a caller's count reaches the role's allowance within a window,
/// every further request in that window is refused and leaves the window
/// as it is.
pub proof fn lemma_rate_limit_holds(
    tiers: Seq<RateLimitTier>,
    role: UserRole,
    start: u64,
    count: u32,
    now: u64,
)
    requires
        role != UserRole::Admin,
        count >= tier_max(tiers, role),
        now < start + RATE_WINDOW_SECS,
    ensures
        rate_decision(true, tiers, role, now, Some((start, count))) == (false, None::<(u64, u32)>),
{
}

/// Once a caller's window has run for an hour, the next request is admitted
/// and opens a new window counting it alone.
pub proof fn lemma_rate_window_resets(tiers: Seq<RateLimitTier>, role: UserRole, start: u64, count: u32, now: u64)
    requires
        role != UserRole::Admin,
        now >= start + RATE_WINDOW_SECS,
    ensures
        rate_decision(true, tiers, role, now, Some((start, count))) == (true, Some((now, 1u32))),
{
}

} // verus!
