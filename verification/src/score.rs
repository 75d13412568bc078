//! Learning credit: a score per user raised by course completions (each
//! course counted once) and recorded contributions.
use vstd::prelude::*;
use crate::id_map::IdMap;
use crate::types::AccountId;

verus! {

/// The kind of a contribution, by its code.
pub type ContributionType = u32;

/// A recorded contribution.
#[derive(Clone, Debug)]
pub struct Contribution {
    pub contributor: AccountId,
    pub c_type: ContributionType,
    pub description: Vec<u8>,
    pub timestamp: u64,
    pub points: u64,
}

/// Scores, completed courses and contributions per user.
#[derive(Clone)]
pub struct ScoreManager {
    pub scores: IdMap<u64>,
    pub courses: IdMap<Vec<u64>>,
    pub contributions: IdMap<Vec<Contribution>>,
}

impl ScoreManager {
    /// Tables are well formed.
    pub open spec fn wf(&self) -> bool {
        self.scores.wf() && self.courses.wf() && self.contributions.wf()
    }

    /// The score of `user`.
    pub open spec fn score(&self, user: AccountId) -> u64 {
        if self.scores@.contains_key(user) { self.scores@[user] } else { 0 }
    }

    /// The courses `user` completed, in order.
    pub open spec fn completed(&self, user: AccountId) -> Seq<u64> {
        if self.courses@.contains_key(user) { self.courses@[user]@ } else { Seq::empty() }
    }

    /// The contributions of `user`, in order.
    pub open spec fn contributed(&self, user: AccountId) -> Seq<Contribution> {
        if self.contributions@.contains_key(user) { self.contributions@[user]@ } else { Seq::empty() }
    }

    /// No scores.
    pub fn new() -> (m: Self)
        ensures
            m.wf(),
            m.scores@ == Map::<u64, u64>::empty(),
            m.courses@ == Map::<u64, Vec<u64>>::empty(),
            m.contributions@ == Map::<u64, Vec<Contribution>>::empty(),
    {
        ScoreManager { scores: IdMap::new(), courses: IdMap::new(), contributions: IdMap::new() }
    }

    /// Add `points` to the score of `user`; returns the new score.
    pub fn update_score(&mut self, user: AccountId, points: u64) -> (s: u64)
        requires
            old(self).wf(),
            old(self).score(user) + points <= u64::MAX,
        ensures
            final(self).wf(),
            s == old(self).score(user) + points,
            final(self).scores@ == old(self).scores@.insert(user, s),
            final(self).courses == old(self).courses,
            final(self).contributions == old(self).contributions,
    {
        let current: u64 = match self.scores.get(user) {
            Some(s) => *s,
            None => 0,
        };
        let s = current + points;
        self.scores.insert(user, s);
        s
    }

    /// `user` completed `course_id`: the first completion of a course adds
    /// it and `points`; a repeated one changes nothing.  Returns whether it
    /// counted.
    pub fn record_course_completion(&mut self, user: AccountId, course_id: u64, points: u64) -> (counted: bool)
        requires
            old(self).wf(),
            !old(self).completed(user).contains(course_id) ==> old(self).score(user) + points <= u64::MAX,
        ensures
            final(self).wf(),
            counted == !old(self).completed(user).contains(course_id),
            !counted ==> *final(self) == *old(self),
            counted ==> {
                &&& final(self).completed(user) == old(self).completed(user).push(course_id)
                &&& forall|u: AccountId| u != user ==> #[trigger] final(self).completed(u) == old(self).completed(u)
                &&& final(self).scores@ == old(self).scores@.insert(user, (old(self).score(user) + points) as u64)
                &&& final(self).contributions == old(self).contributions
            },
    {
        let done = match self.courses.get(user) {
            Some(list) => {
                let mut found = false;
                let mut i: usize = 0;
                while i < list.len()
                    invariant
                        i <= list@.len(),
                        found == list@.take(i as int).contains(course_id),
                    decreases list@.len() - i,
                {
                    proof {
                        broadcast use vstd::seq_lib::group_seq_properties;
                        assert(list@.take(i as int + 1) =~= list@.take(i as int).push(list@[i as int]));
                    }
                    if list[i] == course_id {
                        found = true;
                    }
                    i = i + 1;
                }
                proof { assert(list@.take(i as int) =~= list@); }
                found
            },
            None => false,
        };
        if done {
            return false;
        }
        let mut list = match self.courses.remove(user) {
            Some(l) => l,
            None => Vec::new(),
        };
        list.push(course_id);
        self.courses.insert(user, list);
        self.update_score(user, points);
        true
    }

    /// Record a contribution of `c_type` by `user` at `now` worth `points`,
    /// and add the points to the score.
    pub fn record_contribution(&mut self, user: AccountId, c_type: ContributionType, description: Vec<u8>, points: u64, now: u64)
        requires
            old(self).wf(),
            old(self).score(user) + points <= u64::MAX,
        ensures
            final(self).wf(),
            final(self).contributed(user) == old(self).contributed(user).push(Contribution {
                contributor: user, c_type, description, timestamp: now, points,
            }),
            forall|u: AccountId| u != user ==> #[trigger] final(self).contributed(u) == old(self).contributed(u),
            final(self).scores@ == old(self).scores@.insert(user, (old(self).score(user) + points) as u64),
            final(self).courses == old(self).courses,
    {
        let mut list = match self.contributions.remove(user) {
            Some(l) => l,
            None => Vec::new(),
        };
        list.push(Contribution { contributor: user, c_type, description, timestamp: now, points });
        self.contributions.insert(user, list);
        self.update_score(user, points);
    }

    /// The score of `user`.
    pub fn get_score(&self, user: AccountId) -> (s: u64)
        requires
            self.wf(),
        ensures
            s == self.score(user),
    {
        match self.scores.get(user) {
            Some(s) => *s,
            None => 0,
        }
    }

    /// The courses `user` completed, in order.
    pub fn get_courses(&self, user: AccountId) -> (r: Vec<u64>)
        requires
            self.wf(),
        ensures
            r@ == self.completed(user),
    {
        match self.courses.get(user) {
            Some(l) => l.clone(),
            None => Vec::new(),
        }
    }

    /// The contributions of `user`, in order.
    pub fn get_contributions(&self, user: AccountId) -> (r: Option<&Vec<Contribution>>)
        requires
            self.wf(),
        ensures
            match r {
                Some(l) => self.contributions@.contains_key(user) && l@ == self.contributed(user),
                None => !self.contributions@.contains_key(user),
            },
    {
        self.contributions.get(user)
    }
}

} // verus!
