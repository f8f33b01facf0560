//! Counters that profile the search for known universal facts.
//!
//! Counting happens only when the profile is enabled; a disabled profile
//! never changes. Counters wrap around on overflow.
use vstd::prelude::*;

verus! {

/// The values of all counters at one moment.
#[derive(Clone, Copy, PartialEq, Eq, Structural, Debug)]
pub struct KnownForallProfileSnapshot {
    pub entries: u64,
    pub successes: u64,
    pub unknowns: u64,
    pub candidate_attempts: u64,
    pub exact_candidate_attempts: u64,
    pub fallback_candidate_attempts: u64,
    pub other_candidate_attempts: u64,
    pub builtin_candidate_attempts: u64,
    pub user_candidate_attempts: u64,
    pub arg_matches: u64,
    pub requirement_failures: u64,
}

/// Which search phase tried a candidate.
#[derive(Clone, Copy, PartialEq, Eq, Structural, Debug)]
pub enum KnownForallSearchPhase {
    ExactShape,
    Fallback,
    OtherShape,
}

/// Which kind of environment a candidate came from.
#[derive(Clone, Copy, PartialEq, Eq, Structural, Debug)]
pub enum KnownForallEnvKind {
    Builtin,
    User,
}

/// A profile: whether it is enabled, and its counters.
#[derive(Clone, Copy, PartialEq, Eq, Structural, Debug)]
pub struct KnownForallProfile {
    pub enabled: bool,
    pub counters: KnownForallProfileSnapshot,
}

pub open spec fn zero_snapshot() -> KnownForallProfileSnapshot {
    KnownForallProfileSnapshot {
        entries: 0,
        successes: 0,
        unknowns: 0,
        candidate_attempts: 0,
        exact_candidate_attempts: 0,
        fallback_candidate_attempts: 0,
        other_candidate_attempts: 0,
        builtin_candidate_attempts: 0,
        user_candidate_attempts: 0,
        arg_matches: 0,
        requirement_failures: 0,
    }
}

/// The counters agree with one another: every candidate tried is counted
/// once by its phase and once by its environment kind (all counts taken
/// modulo 2^64, as the counters wrap around).
pub open spec fn counters_consistent(c: KnownForallProfileSnapshot) -> bool {
    &&& c.candidate_attempts as int == (c.exact_candidate_attempts + c.fallback_candidate_attempts
        + c.other_candidate_attempts) % 0x1_0000_0000_0000_0000
    &&& c.candidate_attempts as int == (c.builtin_candidate_attempts + c.user_candidate_attempts)
        % 0x1_0000_0000_0000_0000
}

/// Wrapping increments keep a sum taken modulo 2^64.
pub proof fn lemma_bump_mod(a: u64, s: int)
    requires
        s >= 0,
        a as int == s % 0x1_0000_0000_0000_0000,
    ensures
        bump(a) as int == (s + 1) % 0x1_0000_0000_0000_0000,
{
    assert(bump(a) as int == (s + 1) % 0x1_0000_0000_0000_0000) by (nonlinear_arith)
        requires
            s >= 0,
            a as int == s % 0x1_0000_0000_0000_0000,
            bump(a) as int == (if a == 0xffff_ffff_ffff_ffff { 0 } else { a + 1 }),
    ;
}

/// Incrementing one summand modulo 2^64 is incrementing the sum.
pub proof fn lemma_bump_summand(x: u64, rest: int)
    requires
        rest >= 0,
    ensures
        (bump(x) + rest) % 0x1_0000_0000_0000_0000 == (x + rest + 1) % 0x1_0000_0000_0000_0000,
{
    assert((bump(x) + rest) % 0x1_0000_0000_0000_0000 == (x + rest + 1) % 0x1_0000_0000_0000_0000) by (nonlinear_arith)
        requires
            rest >= 0,
            bump(x) as int == (if x == 0xffff_ffff_ffff_ffff { 0 } else { x + 1 }),
    ;
}

/// `x + 1`, wrapping around at `u64::MAX`.
pub open spec fn bump(x: u64) -> u64 {
    if x == u64::MAX {
        0
    } else {
        (x + 1) as u64
    }
}

fn bump_counter(x: u64) -> (r: u64)
    ensures
        r == bump(x),
{
    x.wrapping_add(1)
}

impl KnownForallProfile {
    /// A profile with all counters at zero.
    pub fn new(enabled: bool) -> (r: KnownForallProfile)
        ensures
            r.enabled == enabled,
            r.counters == zero_snapshot(),
            counters_consistent(r.counters),
    {
        KnownForallProfile {
            enabled,
            counters: KnownForallProfileSnapshot {
                entries: 0,
                successes: 0,
                unknowns: 0,
                candidate_attempts: 0,
                exact_candidate_attempts: 0,
                fallback_candidate_attempts: 0,
                other_candidate_attempts: 0,
                builtin_candidate_attempts: 0,
                user_candidate_attempts: 0,
                arg_matches: 0,
                requirement_failures: 0,
            },
        }
    }
}

/// Whether counting is on.
pub fn enabled(profile: &KnownForallProfile) -> (r: bool)
    ensures
        r == profile.enabled,
{
    profile.enabled
}

/// Set every counter to zero. (A disabled profile never counts, so its
/// counters are zero already when it was made by `new`.)
pub fn reset(profile: &mut KnownForallProfile)
    ensures
        final(profile).enabled == old(profile).enabled,
        final(profile).counters == zero_snapshot(),
{
    profile.counters = KnownForallProfileSnapshot {
        entries: 0,
        successes: 0,
        unknowns: 0,
        candidate_attempts: 0,
        exact_candidate_attempts: 0,
        fallback_candidate_attempts: 0,
        other_candidate_attempts: 0,
        builtin_candidate_attempts: 0,
        user_candidate_attempts: 0,
        arg_matches: 0,
        requirement_failures: 0,
    };
}

/// The current values of all counters.
pub fn snapshot(profile: &KnownForallProfile) -> (r: KnownForallProfileSnapshot)
    ensures
        r == profile.counters,
{
    profile.counters
}

/// Count one search for a known universal fact.
pub fn record_entry(profile: &mut KnownForallProfile)
    ensures
        final(profile).enabled == old(profile).enabled,
        final(profile).counters == (if old(profile).enabled {
            KnownForallProfileSnapshot { entries: bump(old(profile).counters.entries), ..old(profile).counters }
        } else {
            old(profile).counters
        }),
{
    if enabled(profile) {
        profile.counters.entries = bump_counter(profile.counters.entries);
    }
}

/// Count one successful search.
pub fn record_success(profile: &mut KnownForallProfile)
    ensures
        final(profile).enabled == old(profile).enabled,
        final(profile).counters == (if old(profile).enabled {
            KnownForallProfileSnapshot { successes: bump(old(profile).counters.successes), ..old(profile).counters }
        } else {
            old(profile).counters
        }),
{
    if enabled(profile) {
        profile.counters.successes = bump_counter(profile.counters.successes);
    }
}

/// Count one search that ended unknown.
pub fn record_unknown(profile: &mut KnownForallProfile)
    ensures
        final(profile).enabled == old(profile).enabled,
        final(profile).counters == (if old(profile).enabled {
            KnownForallProfileSnapshot { unknowns: bump(old(profile).counters.unknowns), ..old(profile).counters }
        } else {
            old(profile).counters
        }),
{
    if enabled(profile) {
        profile.counters.unknowns = bump_counter(profile.counters.unknowns);
    }
}

/// Count one candidate tried, by phase and by environment kind.
pub fn record_candidate_attempt(
    profile: &mut KnownForallProfile,
    phase: KnownForallSearchPhase,
    env_kind: KnownForallEnvKind,
)
    ensures
        final(profile).enabled == old(profile).enabled,
        counters_consistent(old(profile).counters) ==> counters_consistent(final(profile).counters),
        !old(profile).enabled ==> final(profile).counters == old(profile).counters,
        old(profile).enabled ==> {
            let c = old(profile).counters;
            let d = final(profile).counters;
            &&& d.candidate_attempts == bump(c.candidate_attempts)
            &&& d.exact_candidate_attempts == (if phase == KnownForallSearchPhase::ExactShape {
                bump(c.exact_candidate_attempts)
            } else {
                c.exact_candidate_attempts
            })
            &&& d.fallback_candidate_attempts == (if phase == KnownForallSearchPhase::Fallback {
                bump(c.fallback_candidate_attempts)
            } else {
                c.fallback_candidate_attempts
            })
            &&& d.other_candidate_attempts == (if phase == KnownForallSearchPhase::OtherShape {
                bump(c.other_candidate_attempts)
            } else {
                c.other_candidate_attempts
            })
            &&& d.builtin_candidate_attempts == (if env_kind == KnownForallEnvKind::Builtin {
                bump(c.builtin_candidate_attempts)
            } else {
                c.builtin_candidate_attempts
            })
            &&& d.user_candidate_attempts == (if env_kind == KnownForallEnvKind::User {
                bump(c.user_candidate_attempts)
            } else {
                c.user_candidate_attempts
            })
            &&& d.entries == c.entries
            &&& d.successes == c.successes
            &&& d.unknowns == c.unknowns
            &&& d.arg_matches == c.arg_matches
            &&& d.requirement_failures == c.requirement_failures
        },
{
    if !enabled(profile) {
        return;
    }
    let ghost c = profile.counters;
    proof {
        if counters_consistent(c) {
            let ph = c.exact_candidate_attempts + c.fallback_candidate_attempts + c.other_candidate_attempts;
            let ek = c.builtin_candidate_attempts + c.user_candidate_attempts;
            lemma_bump_mod(c.candidate_attempts, ph);
            lemma_bump_mod(c.candidate_attempts, ek);
            lemma_bump_summand(c.exact_candidate_attempts, c.fallback_candidate_attempts + c.other_candidate_attempts);
            lemma_bump_summand(c.fallback_candidate_attempts, c.exact_candidate_attempts + c.other_candidate_attempts);
            lemma_bump_summand(c.other_candidate_attempts, c.exact_candidate_attempts + c.fallback_candidate_attempts);
            lemma_bump_summand(c.builtin_candidate_attempts, c.user_candidate_attempts as int);
            lemma_bump_summand(c.user_candidate_attempts, c.builtin_candidate_attempts as int);
        }
    }
    profile.counters.candidate_attempts = bump_counter(profile.counters.candidate_attempts);
    match phase {
        KnownForallSearchPhase::ExactShape => {
            profile.counters.exact_candidate_attempts = bump_counter(
                profile.counters.exact_candidate_attempts,
            );
        },
        KnownForallSearchPhase::Fallback => {
            profile.counters.fallback_candidate_attempts = bump_counter(
                profile.counters.fallback_candidate_attempts,
            );
        },
        KnownForallSearchPhase::OtherShape => {
            profile.counters.other_candidate_attempts = bump_counter(
                profile.counters.other_candidate_attempts,
            );
        },
    }
    match env_kind {
        KnownForallEnvKind::Builtin => {
            profile.counters.builtin_candidate_attempts = bump_counter(
                profile.counters.builtin_candidate_attempts,
            );
        },
        KnownForallEnvKind::User => {
            profile.counters.user_candidate_attempts = bump_counter(
                profile.counters.user_candidate_attempts,
            );
        },
    }
}

/// Count one candidate whose arguments matched.
pub fn record_arg_match(profile: &mut KnownForallProfile)
    ensures
        final(profile).enabled == old(profile).enabled,
        final(profile).counters == (if old(profile).enabled {
            KnownForallProfileSnapshot { arg_matches: bump(old(profile).counters.arg_matches), ..old(profile).counters }
        } else {
            old(profile).counters
        }),
{
    if enabled(profile) {
        profile.counters.arg_matches = bump_counter(profile.counters.arg_matches);
    }
}

/// Count one matched candidate whose requirements did not hold.
pub fn record_requirement_failure(profile: &mut KnownForallProfile)
    ensures
        final(profile).enabled == old(profile).enabled,
        final(profile).counters == (if old(profile).enabled {
            KnownForallProfileSnapshot {
                requirement_failures: bump(old(profile).counters.requirement_failures),
                ..old(profile).counters
            }
        } else {
            old(profile).counters
        }),
{
    if enabled(profile) {
        profile.counters.requirement_failures = bump_counter(
            profile.counters.requirement_failures,
        );
    }
}

} // verus!
