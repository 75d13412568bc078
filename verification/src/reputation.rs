//! User reputation from learning activity: participation points, course
//! completion rate in basis points, and the average rating (0-5) of the
//! user's contributions.
use vstd::prelude::*;
use crate::id_map::IdMap;
use crate::types::AccountId;

verus! {

/// Basis points of a full completion rate.
pub const BASIS_POINTS: u32 = 10000;
/// Highest contribution rating.
pub const MAX_RATING: u32 = 5;

/// A user's reputation.
#[derive(Copy, Clone, Debug, PartialEq, Eq, Structural)]
pub struct UserReputation {
    pub participation_score: u32,
    /// Completed over started, in basis points.
    pub completion_rate: u32,
    /// Average rating, 0-5.
    pub contribution_quality: u32,
    pub total_courses_started: u32,
    pub total_courses_completed: u32,
    pub total_contributions: u32,
    pub last_update: u64,
}

/// The reputation of a user without a record.
pub open spec fn fresh() -> UserReputation {
    UserReputation {
        participation_score: 0,
        completion_rate: 0,
        contribution_quality: 0,
        total_courses_started: 0,
        total_courses_completed: 0,
        total_contributions: 0,
        last_update: 0,
    }
}

/// The reputation after a course start or completion at `now`.
pub open spec fn after_progress(r: UserReputation, is_completion: bool, now: u64) -> UserReputation {
    let completed: int = if is_completion { r.total_courses_completed + 1 } else { r.total_courses_completed as int };
    let started: int = if is_completion {
        if r.total_courses_started < completed { completed } else { r.total_courses_started as int }
    } else {
        r.total_courses_started + 1
    };
    UserReputation {
        total_courses_completed: completed as u32,
        total_courses_started: started as u32,
        completion_rate: if started > 0 { ((completed * BASIS_POINTS) / started) as u32 } else { r.completion_rate },
        last_update: now,
        ..r
    }
}

/// The reputation after one more rating at `now`.
pub open spec fn after_rating(r: UserReputation, rating: u32, now: u64) -> UserReputation {
    let n = r.total_contributions + 1;
    UserReputation {
        total_contributions: n as u32,
        contribution_quality: ((r.contribution_quality * r.total_contributions + rating) / n) as u32,
        last_update: now,
        ..r
    }
}

/// Reputation per user.
#[derive(Clone)]
pub struct ReputationManager {
    pub reputations: IdMap<UserReputation>,
}

impl ReputationManager {
    /// The table is well formed.
    pub open spec fn wf(&self) -> bool {
        self.reputations.wf()
    }

    /// The reputation of `user`.
    pub open spec fn rep(&self, user: AccountId) -> UserReputation {
        if self.reputations@.contains_key(user) { self.reputations@[user] } else { fresh() }
    }

    /// No records.
    pub fn new() -> (m: Self)
        ensures
            m.wf(),
            m.reputations@ == Map::<u64, UserReputation>::empty(),
    {
        ReputationManager { reputations: IdMap::new() }
    }

    /// The reputation of `user` (zeroes without a record).
    pub fn get_reputation(&self, user: AccountId) -> (r: UserReputation)
        requires
            self.wf(),
        ensures
            r == self.rep(user),
    {
        match self.reputations.get(user) {
            Some(r) => *r,
            None => UserReputation {
                participation_score: 0,
                completion_rate: 0,
                contribution_quality: 0,
                total_courses_started: 0,
                total_courses_completed: 0,
                total_contributions: 0,
                last_update: 0,
            },
        }
    }

    /// Add `points` of participation to `user` at `now`.
    pub fn update_participation(&mut self, user: AccountId, points: u32, now: u64) -> (r: UserReputation)
        requires
            old(self).wf(),
            old(self).rep(user).participation_score + points <= u32::MAX,
        ensures
            final(self).wf(),
            r == (UserReputation {
                participation_score: (old(self).rep(user).participation_score + points) as u32,
                last_update: now,
                ..old(self).rep(user)
            }),
            final(self).reputations@ == old(self).reputations@.insert(user, r),
    {
        let mut r = self.get_reputation(user);
        r.participation_score = r.participation_score + points;
        r.last_update = now;
        self.reputations.insert(user, r);
        r
    }

    /// Count a course start (or, with `is_completion`, a completion) for
    /// `user` at `now` and recompute the completion rate; a completion
    /// without a matching start counts as a start too.
    pub fn update_course_progress(&mut self, user: AccountId, is_completion: bool, now: u64) -> (r: UserReputation)
        requires
            old(self).wf(),
            is_completion ==> old(self).rep(user).total_courses_completed < u32::MAX
                && (old(self).rep(user).total_courses_completed + 1) * BASIS_POINTS <= u32::MAX,
            !is_completion ==> old(self).rep(user).total_courses_started < u32::MAX
                && old(self).rep(user).total_courses_completed * BASIS_POINTS <= u32::MAX,
        ensures
            final(self).wf(),
            r == after_progress(old(self).rep(user), is_completion, now),
            final(self).reputations@ == old(self).reputations@.insert(user, r),
    {
        let mut r = self.get_reputation(user);
        if is_completion {
            r.total_courses_completed = r.total_courses_completed + 1;
            if r.total_courses_started < r.total_courses_completed {
                r.total_courses_started = r.total_courses_completed;
            }
        } else {
            r.total_courses_started = r.total_courses_started + 1;
        }
        if r.total_courses_started > 0 {
            r.completion_rate = (r.total_courses_completed * BASIS_POINTS) / r.total_courses_started;
        }
        r.last_update = now;
        self.reputations.insert(user, r);
        r
    }

    /// Record a rating (0-5) of a contribution by `user` at `now`, keeping
    /// the running average.
    pub fn rate_contribution(&mut self, user: AccountId, rating: u32, now: u64) -> (r: UserReputation)
        requires
            old(self).wf(),
            rating <= MAX_RATING,
            old(self).rep(user).total_contributions < u32::MAX,
            old(self).rep(user).contribution_quality * old(self).rep(user).total_contributions + rating <= u32::MAX,
        ensures
            final(self).wf(),
            r == after_rating(old(self).rep(user), rating, now),
            final(self).reputations@ == old(self).reputations@.insert(user, r),
    {
        let mut r = self.get_reputation(user);
        let total_quality = r.contribution_quality * r.total_contributions;
        r.total_contributions = r.total_contributions + 1;
        r.contribution_quality = (total_quality + rating) / r.total_contributions;
        r.last_update = now;
        self.reputations.insert(user, r);
        r
    }
}

/// Completions never exceed starts, so the completion rate stays within
/// 100 %.
pub proof fn law_completion_rate_at_most_full(r: UserReputation, is_completion: bool, now: u64)
    requires
        r.total_courses_completed <= r.total_courses_started,
        r.completion_rate <= BASIS_POINTS,
        r.total_courses_completed < u32::MAX,
        r.total_courses_started < u32::MAX,
    ensures
        after_progress(r, is_completion, now).total_courses_completed <= after_progress(r, is_completion, now).total_courses_started,
        after_progress(r, is_completion, now).completion_rate <= BASIS_POINTS,
{
    let n = after_progress(r, is_completion, now);
    let c: int = if is_completion { r.total_courses_completed + 1 } else { r.total_courses_completed as int };
    let s: int = if is_completion { if r.total_courses_started < c { c } else { r.total_courses_started as int } } else { r.total_courses_started + 1 };
    assert(c <= s);
    assert(s > 0);
    assert((c * 10000) / s <= 10000) by (nonlinear_arith)
        requires 0 <= c <= s, s > 0;
}

/// The average rating stays within 0-5.
pub proof fn law_quality_stays_in_scale(r: UserReputation, rating: u32, now: u64)
    requires
        r.contribution_quality <= MAX_RATING,
        rating <= MAX_RATING,
        r.total_contributions < u32::MAX,
    ensures
        after_rating(r, rating, now).contribution_quality <= MAX_RATING,
{
    let q = r.contribution_quality as int;
    let t = r.total_contributions as int;
    assert((q * t + rating) / (t + 1) <= 5) by (nonlinear_arith)
        requires 0 <= q <= 5, 0 <= rating <= 5, t >= 0;
}

} // verus!
