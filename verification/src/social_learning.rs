//! Social learning: study groups, discussion forums, collaboration
//! workspaces, peer reviews and mentorship profiles.
//!
//! Every table is keyed by an id drawn from a counter; the lists of "a
//! user's" groups, posts, workspaces and reviews are single lists shared by
//! all users, and the social analytics record is a single slot, as the
//! contract stores them.
use vstd::prelude::*;
use crate::id_map::IdMap;
use crate::types::{AccountId, copy_bytes};

verus! {

/// Options of a study group.
#[derive(Copy, Clone, Debug, PartialEq, Eq, Structural)]
pub struct StudyGroupSettings {
    pub allow_member_invites: bool,
    pub require_admin_approval: bool,
    pub enable_chat: bool,
    pub enable_file_sharing: bool,
    pub enable_video_calls: bool,
    pub auto_approve_members: bool,
}

/// A study group.
#[derive(Clone, Debug)]
pub struct StudyGroup {
    pub id: u64,
    pub name: Vec<u8>,
    pub description: Vec<u8>,
    pub creator: AccountId,
    pub members: Vec<AccountId>,
    pub admins: Vec<AccountId>,
    pub subject: Vec<u8>,
    pub max_members: u32,
    pub is_private: bool,
    pub created_at: u64,
    pub last_activity: u64,
    pub tags: Vec<Vec<u8>>,
    pub settings: StudyGroupSettings,
}

/// A discussion forum.
#[derive(Clone, Debug)]
pub struct DiscussionForum {
    pub id: u64,
    pub title: Vec<u8>,
    pub description: Vec<u8>,
    pub creator: AccountId,
    pub category: Vec<u8>,
    pub tags: Vec<Vec<u8>>,
    pub is_pinned: bool,
    pub is_locked: bool,
    pub created_at: u64,
    pub last_post_at: u64,
    pub post_count: u32,
    pub view_count: u64,
}

/// A post in a forum.
#[derive(Clone, Debug)]
pub struct ForumPost {
    pub id: u64,
    pub forum_id: u64,
    pub title: Vec<u8>,
    pub content: Vec<u8>,
    pub author: AccountId,
    pub created_at: u64,
    pub updated_at: u64,
    pub reply_count: u32,
    pub like_count: u32,
    pub is_pinned: bool,
    pub is_edited: bool,
    pub attachments: Vec<Vec<u8>>,
}

/// What a workspace is for.
#[derive(Copy, Clone, Debug, PartialEq, Eq, Structural)]
pub enum ProjectType {
    Study,
    Research,
    Assignment,
    Tutorial,
    Discussion,
}

/// Where a workspace stands.
#[derive(Copy, Clone, Debug, PartialEq, Eq, Structural)]
pub enum WorkspaceStatus {
    Active,
    Completed,
    Archived,
    Suspended,
}

/// A file shared in a workspace.
#[derive(Clone, Debug)]
pub struct WorkspaceFile {
    pub id: u64,
    pub name: Vec<u8>,
    pub content_hash: Vec<u8>,
    pub uploader: AccountId,
    pub uploaded_at: u64,
    pub file_type: Vec<u8>,
    pub size: u64,
    pub version: u32,
}

/// Where a task stands.
#[derive(Copy, Clone, Debug, PartialEq, Eq, Structural)]
pub enum TaskStatus {
    Todo,
    InProgress,
    Review,
    Completed,
    Cancelled,
}

/// How urgent a task is.
#[derive(Copy, Clone, Debug, PartialEq, Eq, Structural)]
pub enum TaskPriority {
    Low,
    Medium,
    High,
    Urgent,
}

/// A task in a workspace.
#[derive(Clone, Debug)]
pub struct WorkspaceTask {
    pub id: u64,
    pub title: Vec<u8>,
    pub description: Vec<u8>,
    pub assignee: AccountId,
    pub creator: AccountId,
    pub due_date: u64,
    pub status: TaskStatus,
    pub priority: TaskPriority,
    pub created_at: u64,
    pub completed_at: Option<u64>,
}

/// Options of a workspace.
#[derive(Copy, Clone, Debug, PartialEq, Eq, Structural)]
pub struct WorkspaceSettings {
    pub allow_public_view: bool,
    pub require_approval_to_join: bool,
    pub enable_chat: bool,
    pub enable_video_calls: bool,
    pub auto_save_interval: u64,
}

/// A collaboration workspace.
#[derive(Clone, Debug)]
pub struct CollaborationWorkspace {
    pub id: u64,
    pub name: Vec<u8>,
    pub description: Vec<u8>,
    pub creator: AccountId,
    pub collaborators: Vec<AccountId>,
    pub project_type: ProjectType,
    pub status: WorkspaceStatus,
    pub created_at: u64,
    pub last_activity: u64,
    pub files: Vec<WorkspaceFile>,
    pub tasks: Vec<WorkspaceTask>,
    pub settings: WorkspaceSettings,
}

/// What a peer review is about.
#[derive(Copy, Clone, Debug, PartialEq, Eq, Structural)]
pub enum ReviewContentType {
    Submission,
    Comment,
    Project,
    Tutorial,
    Resource,
}

/// A peer review; `rating` is from 1 to 5 stars, `criteria` the score given
/// for each named criterion.
#[derive(Clone, Debug)]
pub struct PeerReview {
    pub id: u64,
    pub reviewer: AccountId,
    pub reviewee: AccountId,
    pub content_type: ReviewContentType,
    pub content_id: u64,
    pub rating: u32,
    pub feedback: Vec<u8>,
    pub criteria: Vec<(Vec<u8>, u32)>,
    pub created_at: u64,
    pub is_helpful: bool,
    pub helpful_votes: u32,
}

/// How experienced a mentor is.
#[derive(Copy, Clone, Debug, PartialEq, Eq, Structural)]
pub enum ExperienceLevel {
    Beginner,
    Intermediate,
    Advanced,
    Expert,
}

/// Whether a mentor takes sessions.
#[derive(Copy, Clone, Debug, PartialEq, Eq, Structural)]
pub enum AvailabilityStatus {
    Available,
    Busy,
    Unavailable,
}

/// A mentor's profile; `success_rate` is in basis points.
#[derive(Clone, Debug)]
pub struct MentorshipProfile {
    pub mentor: AccountId,
    pub expertise_areas: Vec<Vec<u8>>,
    pub experience_level: ExperienceLevel,
    pub availability: AvailabilityStatus,
    pub hourly_rate: Option<u64>,
    pub bio: Vec<u8>,
    pub rating: u64,
    pub review_count: u32,
    pub mentee_count: u32,
    pub success_rate: u64,
    pub languages: Vec<Vec<u8>>,
    pub timezone: Vec<u8>,
}

/// Where a mentorship session stands.
#[derive(Copy, Clone, Debug, PartialEq, Eq, Structural)]
pub enum SessionStatus {
    Scheduled,
    InProgress,
    Completed,
    Cancelled,
    NoShow,
}

/// A mentorship session; `duration` is in minutes.
#[derive(Clone, Debug)]
pub struct MentorshipSession {
    pub id: u64,
    pub mentor: AccountId,
    pub mentee: AccountId,
    pub topic: Vec<u8>,
    pub scheduled_time: u64,
    pub duration: u32,
    pub status: SessionStatus,
    pub notes: Vec<u8>,
    pub rating: Option<u32>,
    pub feedback: Vec<u8>,
    pub created_at: u64,
    pub completed_at: Option<u64>,
}

/// How engaged a user is.
#[derive(Copy, Clone, Debug, PartialEq, Eq, Structural)]
pub enum EngagementLevel {
    Low,
    Medium,
    High,
    VeryHigh,
}

/// A user's social activity figures.
#[derive(Clone, Debug)]
pub struct SocialAnalytics {
    pub user: AccountId,
    pub study_groups_joined: u32,
    pub discussions_participated: u32,
    pub posts_created: u32,
    pub reviews_given: u32,
    pub mentorship_hours: u64,
    pub collaboration_projects: u32,
    pub social_score: u64,
    pub engagement_level: EngagementLevel,
    pub badges: Vec<Vec<u8>>,
    pub last_updated: u64,
}

/// What a badge rewards.
#[derive(Copy, Clone, Debug, PartialEq, Eq, Structural)]
pub enum BadgeCategory {
    Collaboration,
    Mentorship,
    Contribution,
    Leadership,
    Learning,
}

/// The thresholds a badge asks for; `None` asks nothing of that figure.
#[derive(Copy, Clone, Debug, PartialEq, Eq, Structural)]
pub struct BadgeRequirements {
    pub study_groups_joined: Option<u32>,
    pub discussions_participated: Option<u32>,
    pub mentorship_hours: Option<u64>,
    pub reviews_given: Option<u32>,
    pub projects_completed: Option<u32>,
    pub social_score: Option<u64>,
}

/// How rare a badge is.
#[derive(Copy, Clone, Debug, PartialEq, Eq, Structural)]
pub enum BadgeRarity {
    Common,
    Uncommon,
    Rare,
    Epic,
    Legendary,
}

/// A badge.
#[derive(Clone, Debug)]
pub struct SocialBadge {
    pub id: u64,
    pub name: Vec<u8>,
    pub description: Vec<u8>,
    pub icon: Vec<u8>,
    pub category: BadgeCategory,
    pub requirements: BadgeRequirements,
    pub rarity: BadgeRarity,
    pub created_at: u64,
}

/// What kind of reward can be bought with points.
#[derive(Copy, Clone, Debug, PartialEq, Eq, Structural)]
pub enum RewardCategory {
    Digital,
    Physical,
    Access,
    Recognition,
}

/// A reward that can be bought with points.
#[derive(Clone, Debug)]
pub struct SocialReward {
    pub id: u64,
    pub name: Vec<u8>,
    pub description: Vec<u8>,
    pub cost: u64,
    pub category: RewardCategory,
    pub is_available: bool,
    pub created_at: u64,
}

/// Errors of the social learning features (codes 1-15).
#[derive(Copy, Clone, Debug, PartialEq, Eq, Structural)]
pub enum SocialLearningError {
    Unauthorized,
    StudyGroupNotFound,
    AlreadyMember,
    MaxMembersReached,
    ForumNotFound,
    PostNotFound,
    WorkspaceNotFound,
    ReviewNotFound,
    MentorshipProfileNotFound,
    SessionNotFound,
    InvalidRating,
    InsufficientPermissions,
    DuplicateEntry,
    InvalidInput,
    ResourceNotFound,
}

impl SocialLearningError {
    /// The stable numeric code of the error.
    pub open spec fn spec_code(&self) -> u32 {
        match self {
            SocialLearningError::Unauthorized => 1u32,
            SocialLearningError::StudyGroupNotFound => 2u32,
            SocialLearningError::AlreadyMember => 3u32,
            SocialLearningError::MaxMembersReached => 4u32,
            SocialLearningError::ForumNotFound => 5u32,
            SocialLearningError::PostNotFound => 6u32,
            SocialLearningError::WorkspaceNotFound => 7u32,
            SocialLearningError::ReviewNotFound => 8u32,
            SocialLearningError::MentorshipProfileNotFound => 9u32,
            SocialLearningError::SessionNotFound => 10u32,
            SocialLearningError::InvalidRating => 11u32,
            SocialLearningError::InsufficientPermissions => 12u32,
            SocialLearningError::DuplicateEntry => 13u32,
            SocialLearningError::InvalidInput => 14u32,
            SocialLearningError::ResourceNotFound => 15u32,
        }
    }

    /// The stable numeric code of the error.
    #[verifier::when_used_as_spec(spec_code)]
    pub fn code(&self) -> (c: u32)
        ensures
            c == self.spec_code(),
    {
        match self {
            SocialLearningError::Unauthorized => 1u32,
            SocialLearningError::StudyGroupNotFound => 2u32,
            SocialLearningError::AlreadyMember => 3u32,
            SocialLearningError::MaxMembersReached => 4u32,
            SocialLearningError::ForumNotFound => 5u32,
            SocialLearningError::PostNotFound => 6u32,
            SocialLearningError::WorkspaceNotFound => 7u32,
            SocialLearningError::ReviewNotFound => 8u32,
            SocialLearningError::MentorshipProfileNotFound => 9u32,
            SocialLearningError::SessionNotFound => 10u32,
            SocialLearningError::InvalidRating => 11u32,
            SocialLearningError::InsufficientPermissions => 12u32,
            SocialLearningError::DuplicateEntry => 13u32,
            SocialLearningError::InvalidInput => 14u32,
            SocialLearningError::ResourceNotFound => 15u32,
        }
    }
}

/// The elements of `s` other than `x`, in order.
pub open spec fn without<T>(s: Seq<T>, x: T) -> Seq<T> {
    s.filter(|y: T| y != x)
}

/// Removing an element keeps the others in order: one step of the walk.
pub proof fn lemma_without_step<T>(s: Seq<T>, x: T, i: int)
    requires
        0 <= i < s.len(),
    ensures
        without(s.take(i + 1), x) == if s[i] != x {
            without(s.take(i), x).push(s[i])
        } else {
            without(s.take(i), x)
        },
{
    reveal(Seq::filter);
    assert(s.take(i + 1).drop_last() =~= s.take(i));
    assert(s.take(i + 1).last() == s[i]);
}

/// Removing an element that does not occur changes nothing.
pub proof fn lemma_without_absent<T>(s: Seq<T>, x: T)
    requires
        !s.contains(x),
    ensures
        without(s, x) == s,
    decreases s.len(),
{
    reveal(Seq::filter);
    if s.len() > 0 {
        let t = s.drop_last();
        assert(!t.contains(x)) by {
            if t.contains(x) {
                let j = choose|j: int| 0 <= j < t.len() && t[j] == x;
                assert(s[j] == x);
            }
        }
        lemma_without_absent(t, x);
        assert(s.last() != x) by {
            assert(s[s.len() - 1] == s.last());
        }
        assert(t.push(s.last()) =~= s);
    }
}

/// `v` without the elements equal to `x`.
pub fn remove_all(v: &Vec<u64>, x: u64) -> (r: Vec<u64>)
    ensures
        r@ == without(v@, x),
{
    let mut r: Vec<u64> = Vec::new();
    let mut i: usize = 0;
    while i < v.len()
        invariant
            i <= v@.len(),
            r@ == without(v@.take(i as int), x),
        decreases v@.len() - i,
    {
        proof { lemma_without_step(v@, x, i as int); }
        if v[i] != x {
            r.push(v[i]);
        }
        i = i + 1;
    }
    assert(v@.take(v@.len() as int) =~= v@);
    r
}

/// Whether `x` occurs in `v`.
pub fn contains_id(v: &Vec<u64>, x: u64) -> (b: bool)
    ensures
        b == v@.contains(x),
{
    let mut i: usize = 0;
    while i < v.len()
        invariant
            i <= v@.len(),
            forall|j: int| 0 <= j < i ==> v@[j] != x,
        decreases v@.len() - i,
    {
        if v[i] == x {
            assert(v@[i as int] == x);
            return true;
        }
        i = i + 1;
    }
    false
}

/// A copy of a list of byte strings.
pub fn copy_byte_list(v: &Vec<Vec<u8>>) -> (r: Vec<Vec<u8>>)
    ensures
        r@.len() == v@.len(),
        forall|i: int| 0 <= i < v@.len() ==> #[trigger] r@[i]@ == v@[i]@,
{
    let mut r: Vec<Vec<u8>> = Vec::new();
    let mut i: usize = 0;
    while i < v.len()
        invariant
            i <= v@.len(),
            r@.len() == i,
            forall|j: int| 0 <= j < i ==> #[trigger] r@[j]@ == v@[j]@,
        decreases v@.len() - i,
    {
        r.push(copy_bytes(&v[i]));
        i = i + 1;
    }
    r
}

/// A copy of a list of ids.
pub fn copy_ids(v: &Vec<u64>) -> (r: Vec<u64>)
    ensures
        r@ == v@,
{
    let mut r: Vec<u64> = Vec::new();
    let mut i: usize = 0;
    while i < v.len()
        invariant
            i <= v@.len(),
            r@ == v@.take(i as int),
        decreases v@.len() - i,
    {
        r.push(v[i]);
        i = i + 1;
        assert(r@ =~= v@.take(i as int));
    }
    assert(v@.take(v@.len() as int) =~= v@);
    r
}


/// `y` is left in `without(s, x)` exactly when it occurs in `s` and is not `x`.
pub proof fn lemma_without_contains<T>(s: Seq<T>, x: T, y: T)
    ensures
        without(s, x).contains(y) <==> (s.contains(y) && y != x),
{
    let p = |z: T| z != x;
    if without(s, x).contains(y) {
        s.lemma_filter_contains_rev(p, y);
        let i = choose|i: int| 0 <= i < s.filter(p).len() && s.filter(p)[i] == y;
        s.lemma_filter_pred(p, i);
    }
    if s.contains(y) && y != x {
        let i = choose|i: int| 0 <= i < s.len() && s[i] == y;
        s.lemma_filter_contains(p, i);
    }
}

/// Every admin of a group is one of its members.
pub open spec fn group_wf(g: StudyGroup) -> bool {
    forall|a: AccountId| #[trigger] g.admins@.contains(a) ==> g.members@.contains(a)
}

/// `after` is `before` with `user` added as a member at `now`.
pub open spec fn joined_group(before: StudyGroup, after: StudyGroup, user: AccountId, now: u64) -> bool {
    &&& after.members@ == before.members@.push(user)
    &&& after == StudyGroup { members: after.members, last_activity: now, ..before }
}

/// `after` is `before` with `user` gone from its members and admins at `now`.
pub open spec fn left_group(before: StudyGroup, after: StudyGroup, user: AccountId, now: u64) -> bool {
    &&& after.members@ == without(before.members@, user)
    &&& after.admins@ == without(before.admins@, user)
    &&& after == StudyGroup { members: after.members, admins: after.admins, last_activity: now, ..before }
}

/// Study groups, forums, workspaces, reviews and mentor profiles.
#[derive(Clone)]
pub struct SocialLearningManager {
    pub study_group_counter: u64,
    pub study_groups: IdMap<StudyGroup>,
    /// Ids of the groups joined, one list for all users.
    pub user_study_groups: Vec<u64>,
    /// Shared by forums and posts: both take their ids from it.
    pub forum_counter: u64,
    pub forums: IdMap<DiscussionForum>,
    pub forum_posts: IdMap<ForumPost>,
    /// Ids of the posts written, one list for all users.
    pub user_posts: Vec<u64>,
    pub workspace_counter: u64,
    pub workspaces: IdMap<CollaborationWorkspace>,
    /// Ids of the workspaces created, one list for all users.
    pub user_workspaces: Vec<u64>,
    pub review_counter: u64,
    pub reviews: IdMap<PeerReview>,
    /// Ids of the reviews written, one list for all users.
    pub user_reviews: Vec<u64>,
    /// Profiles keyed by mentor.
    pub mentorship_profiles: IdMap<MentorshipProfile>,
    /// The last analytics record stored, one slot for all users.
    pub social_analytics: Option<SocialAnalytics>,
}

impl SocialLearningManager {
    /// Tables are well formed and every group's admins are members.
    pub open spec fn wf(&self) -> bool {
        &&& self.study_groups.wf()
        &&& self.forums.wf()
        &&& self.forum_posts.wf()
        &&& self.workspaces.wf()
        &&& self.reviews.wf()
        &&& self.mentorship_profiles.wf()
        &&& forall|k: u64| #[trigger] self.study_groups@.contains_key(k) ==> group_wf(self.study_groups@[k])
    }

    /// Nothing stored yet.
    pub fn new() -> (m: Self)
        ensures
            m.wf(),
            m.study_group_counter == 0 && m.forum_counter == 0 && m.workspace_counter == 0 && m.review_counter == 0,
            m.study_groups@ == Map::<u64, StudyGroup>::empty(),
            m.forums@ == Map::<u64, DiscussionForum>::empty(),
            m.forum_posts@ == Map::<u64, ForumPost>::empty(),
            m.workspaces@ == Map::<u64, CollaborationWorkspace>::empty(),
            m.reviews@ == Map::<u64, PeerReview>::empty(),
            m.mentorship_profiles@ == Map::<u64, MentorshipProfile>::empty(),
            m.user_study_groups@ == Seq::<u64>::empty(),
            m.user_posts@ == Seq::<u64>::empty(),
            m.user_workspaces@ == Seq::<u64>::empty(),
            m.user_reviews@ == Seq::<u64>::empty(),
            m.social_analytics is None,
    {
        SocialLearningManager {
            study_group_counter: 0,
            study_groups: IdMap::new(),
            user_study_groups: Vec::new(),
            forum_counter: 0,
            forums: IdMap::new(),
            forum_posts: IdMap::new(),
            user_posts: Vec::new(),
            workspace_counter: 0,
            workspaces: IdMap::new(),
            user_workspaces: Vec::new(),
            review_counter: 0,
            reviews: IdMap::new(),
            user_reviews: Vec::new(),
            mentorship_profiles: IdMap::new(),
            social_analytics: None,
        }
    }

    /// `creator` opens a study group at `now`; it gets the next id, with the
    /// creator as its only member and admin.
    pub fn create_study_group(
        &mut self,
        creator: AccountId,
        name: Vec<u8>,
        description: Vec<u8>,
        subject: Vec<u8>,
        max_members: u32,
        is_private: bool,
        tags: Vec<Vec<u8>>,
        settings: StudyGroupSettings,
        now: u64,
    ) -> (r: Result<u64, SocialLearningError>)
        requires
            old(self).wf(),
            old(self).study_group_counter < u64::MAX,
        ensures
            final(self).wf(),
            ({
                let id = (old(self).study_group_counter + 1) as u64;
                let g = final(self).study_groups@[id];
                &&& r == Ok::<u64, SocialLearningError>(id)
                &&& final(self).study_groups@.contains_key(id)
                &&& final(self).study_groups@.remove(id) == old(self).study_groups@.remove(id)
                &&& g.members@ == seq![creator]
                &&& g.admins@ == seq![creator]
                &&& g == StudyGroup {
                    id,
                    name,
                    description,
                    creator,
                    members: g.members,
                    admins: g.admins,
                    subject,
                    max_members,
                    is_private,
                    created_at: now,
                    last_activity: now,
                    tags,
                    settings,
                }
                &&& final(self).user_study_groups@ == old(self).user_study_groups@.push(id)
                &&& *final(self) == SocialLearningManager {
                    study_group_counter: id,
                    study_groups: final(self).study_groups,
                    user_study_groups: final(self).user_study_groups,
                    ..*old(self)
                }
            }),
    {
        let id = self.study_group_counter + 1;
        let mut members: Vec<AccountId> = Vec::new();
        members.push(creator);
        let mut admins: Vec<AccountId> = Vec::new();
        admins.push(creator);
        let group = StudyGroup {
            id,
            name,
            description,
            creator,
            members,
            admins,
            subject,
            max_members,
            is_private,
            created_at: now,
            last_activity: now,
            tags,
            settings,
        };
        assert(group_wf(group));
        self.study_groups.insert(id, group);
        assert(self.study_groups@.remove(id) =~= old(self).study_groups@.remove(id));
        self.user_study_groups.push(id);
        self.study_group_counter = id;
        Ok(id)
    }

    /// `user` joins group `group_id` at `now`, unless already a member or
    /// the group is full.
    pub fn join_study_group(&mut self, user: AccountId, group_id: u64, now: u64) -> (r: Result<(), SocialLearningError>)
        requires
            old(self).wf(),
        ensures
            final(self).wf(),
            !old(self).study_groups@.contains_key(group_id) ==>
                r == Err::<(), SocialLearningError>(SocialLearningError::StudyGroupNotFound) && *final(self) == *old(self),
            old(self).study_groups@.contains_key(group_id) ==> {
                let g = old(self).study_groups@[group_id];
                if g.members@.contains(user) {
                    r == Err::<(), SocialLearningError>(SocialLearningError::AlreadyMember) && *final(self) == *old(self)
                } else if g.members@.len() >= g.max_members {
                    r == Err::<(), SocialLearningError>(SocialLearningError::MaxMembersReached) && *final(self) == *old(self)
                } else {
                    &&& r is Ok
                    &&& final(self).study_groups@.contains_key(group_id)
                    &&& final(self).study_groups@.remove(group_id) == old(self).study_groups@.remove(group_id)
                    &&& joined_group(g, final(self).study_groups@[group_id], user, now)
                    &&& final(self).study_groups@[group_id].members@.len() <= g.max_members
                    &&& final(self).user_study_groups@ == old(self).user_study_groups@.push(group_id)
                    &&& *final(self) == SocialLearningManager {
                        study_groups: final(self).study_groups,
                        user_study_groups: final(self).user_study_groups,
                        ..*old(self)
                    }
                }
            },
    {
        let (is_member, count, max) = match self.study_groups.get(group_id) {
            None => { return Err(SocialLearningError::StudyGroupNotFound); },
            Some(g) => (contains_id(&g.members, user), g.members.len(), g.max_members),
        };
        if is_member {
            return Err(SocialLearningError::AlreadyMember);
        }
        if count >= max as usize {
            return Err(SocialLearningError::MaxMembersReached);
        }
        let ghost g0 = old(self).study_groups@[group_id];
        let removed = self.study_groups.remove(group_id);
        let mut group = match removed {
            Some(g) => g,
            None => { return Err(SocialLearningError::StudyGroupNotFound); },
        };
        group.members.push(user);
        group.last_activity = now;
        assert(group_wf(group)) by {
            assert forall|a: AccountId| #[trigger] group.admins@.contains(a) implies group.members@.contains(a) by {
                assert(g0.members@.contains(a));
                let j = choose|j: int| 0 <= j < g0.members@.len() && g0.members@[j] == a;
                assert(group.members@[j] == a);
            }
        }
        self.study_groups.insert(group_id, group);
        assert(self.study_groups@.remove(group_id) =~= old(self).study_groups@.remove(group_id));
        self.user_study_groups.push(group_id);
        Ok(())
    }

    /// `user` leaves group `group_id` at `now`, as member and as admin.
    pub fn leave_study_group(&mut self, user: AccountId, group_id: u64, now: u64) -> (r: Result<(), SocialLearningError>)
        requires
            old(self).wf(),
        ensures
            final(self).wf(),
            !old(self).study_groups@.contains_key(group_id) ==>
                r == Err::<(), SocialLearningError>(SocialLearningError::StudyGroupNotFound) && *final(self) == *old(self),
            old(self).study_groups@.contains_key(group_id) ==> {
                let g = old(self).study_groups@[group_id];
                if !g.members@.contains(user) {
                    r == Err::<(), SocialLearningError>(SocialLearningError::Unauthorized) && *final(self) == *old(self)
                } else {
                    &&& r is Ok
                    &&& final(self).study_groups@.contains_key(group_id)
                    &&& final(self).study_groups@.remove(group_id) == old(self).study_groups@.remove(group_id)
                    &&& left_group(g, final(self).study_groups@[group_id], user, now)
                    &&& final(self).user_study_groups@ == without(old(self).user_study_groups@, group_id)
                    &&& *final(self) == SocialLearningManager {
                        study_groups: final(self).study_groups,
                        user_study_groups: final(self).user_study_groups,
                        ..*old(self)
                    }
                }
            },
    {
        let is_member = match self.study_groups.get(group_id) {
            None => { return Err(SocialLearningError::StudyGroupNotFound); },
            Some(g) => contains_id(&g.members, user),
        };
        if !is_member {
            return Err(SocialLearningError::Unauthorized);
        }
        let ghost g0 = old(self).study_groups@[group_id];
        let removed = self.study_groups.remove(group_id);
        let mut group = match removed {
            Some(g) => g,
            None => { return Err(SocialLearningError::StudyGroupNotFound); },
        };
        group.members = remove_all(&group.members, user);
        group.admins = remove_all(&group.admins, user);
        group.last_activity = now;
        assert(group_wf(group)) by {
            assert forall|a: AccountId| #[trigger] group.admins@.contains(a) implies group.members@.contains(a) by {
                lemma_without_contains(g0.admins@, user, a);
                lemma_without_contains(g0.members@, user, a);
            }
        }
        self.study_groups.insert(group_id, group);
        assert(self.study_groups@.remove(group_id) =~= old(self).study_groups@.remove(group_id));
        self.user_study_groups = remove_all(&self.user_study_groups, group_id);
        Ok(())
    }

    /// The study group `group_id`.
    pub fn get_study_group(&self, group_id: u64) -> (r: Result<&StudyGroup, SocialLearningError>)
        requires
            self.wf(),
        ensures
            self.study_groups@.contains_key(group_id) ==> r == Ok::<&StudyGroup, SocialLearningError>(&self.study_groups@[group_id]),
            !self.study_groups@.contains_key(group_id) ==> r == Err::<&StudyGroup, SocialLearningError>(SocialLearningError::StudyGroupNotFound),
    {
        match self.study_groups.get(group_id) {
            Some(g) => Ok(g),
            None => Err(SocialLearningError::StudyGroupNotFound),
        }
    }

    /// The ids of the groups joined; the list is shared by all users, so
    /// `user` does not select anything.
    pub fn get_user_study_groups(&self, user: AccountId) -> (r: Vec<u64>)
        ensures
            r@ == self.user_study_groups@,
    {
        copy_ids(&self.user_study_groups)
    }
}

impl SocialLearningManager {
    /// `creator` opens a forum at `now`; it takes the next id of the counter
    /// that forums and posts share.
    pub fn create_forum(
        &mut self,
        creator: AccountId,
        title: Vec<u8>,
        description: Vec<u8>,
        category: Vec<u8>,
        tags: Vec<Vec<u8>>,
        now: u64,
    ) -> (r: Result<u64, SocialLearningError>)
        requires
            old(self).wf(),
            old(self).forum_counter < u64::MAX,
        ensures
            final(self).wf(),
            ({
                let id = (old(self).forum_counter + 1) as u64;
                &&& r == Ok::<u64, SocialLearningError>(id)
                &&& final(self).forums@ == old(self).forums@.insert(id, DiscussionForum {
                    id,
                    title,
                    description,
                    creator,
                    category,
                    tags,
                    is_pinned: false,
                    is_locked: false,
                    created_at: now,
                    last_post_at: now,
                    post_count: 0,
                    view_count: 0,
                })
                &&& *final(self) == SocialLearningManager { forum_counter: id, forums: final(self).forums, ..*old(self) }
            }),
    {
        let id = self.forum_counter + 1;
        let forum = DiscussionForum {
            id,
            title,
            description,
            creator,
            category,
            tags,
            is_pinned: false,
            is_locked: false,
            created_at: now,
            last_post_at: now,
            post_count: 0,
            view_count: 0,
        };
        self.forums.insert(id, forum);
        self.forum_counter = id;
        Ok(id)
    }

    /// `author` posts in forum `forum_id` at `now`, unless the forum is
    /// locked; the post takes the next id of the shared counter and the
    /// forum counts it.
    pub fn create_forum_post(
        &mut self,
        forum_id: u64,
        author: AccountId,
        title: Vec<u8>,
        content: Vec<u8>,
        attachments: Vec<Vec<u8>>,
        now: u64,
    ) -> (r: Result<u64, SocialLearningError>)
        requires
            old(self).wf(),
            old(self).forums@.contains_key(forum_id) && !old(self).forums@[forum_id].is_locked ==> {
                &&& old(self).forum_counter < u64::MAX
                &&& old(self).forums@[forum_id].post_count < u32::MAX
            },
        ensures
            final(self).wf(),
            !old(self).forums@.contains_key(forum_id) ==>
                r == Err::<u64, SocialLearningError>(SocialLearningError::ForumNotFound) && *final(self) == *old(self),
            old(self).forums@.contains_key(forum_id) ==> {
                let f = old(self).forums@[forum_id];
                let id = (old(self).forum_counter + 1) as u64;
                if f.is_locked {
                    r == Err::<u64, SocialLearningError>(SocialLearningError::InsufficientPermissions) && *final(self) == *old(self)
                } else {
                    &&& r == Ok::<u64, SocialLearningError>(id)
                    &&& final(self).forum_posts@ == old(self).forum_posts@.insert(id, ForumPost {
                        id,
                        forum_id,
                        title,
                        content,
                        author,
                        created_at: now,
                        updated_at: now,
                        reply_count: 0,
                        like_count: 0,
                        is_pinned: false,
                        is_edited: false,
                        attachments,
                    })
                    &&& final(self).forums@ == old(self).forums@.insert(forum_id, DiscussionForum {
                        post_count: (f.post_count + 1) as u32,
                        last_post_at: now,
                        ..f
                    })
                    &&& final(self).user_posts@ == old(self).user_posts@.push(id)
                    &&& *final(self) == SocialLearningManager {
                        forum_counter: id,
                        forums: final(self).forums,
                        forum_posts: final(self).forum_posts,
                        user_posts: final(self).user_posts,
                        ..*old(self)
                    }
                }
            },
    {
        let locked = match self.forums.get(forum_id) {
            None => { return Err(SocialLearningError::ForumNotFound); },
            Some(f) => f.is_locked,
        };
        if locked {
            return Err(SocialLearningError::InsufficientPermissions);
        }
        let id = self.forum_counter + 1;
        let post = ForumPost {
            id,
            forum_id,
            title,
            content,
            author,
            created_at: now,
            updated_at: now,
            reply_count: 0,
            like_count: 0,
            is_pinned: false,
            is_edited: false,
            attachments,
        };
        self.forum_posts.insert(id, post);
        let removed = self.forums.remove(forum_id);
        let mut forum = match removed {
            Some(f) => f,
            None => { return Err(SocialLearningError::ForumNotFound); },
        };
        forum.post_count = forum.post_count + 1;
        forum.last_post_at = now;
        self.forums.insert(forum_id, forum);
        assert(self.forums@ =~= old(self).forums@.insert(forum_id, forum));
        self.user_posts.push(id);
        self.forum_counter = id;
        Ok(id)
    }

    /// The forum `forum_id`.
    pub fn get_forum(&self, forum_id: u64) -> (r: Result<&DiscussionForum, SocialLearningError>)
        requires
            self.wf(),
        ensures
            self.forums@.contains_key(forum_id) ==> r == Ok::<&DiscussionForum, SocialLearningError>(&self.forums@[forum_id]),
            !self.forums@.contains_key(forum_id) ==> r == Err::<&DiscussionForum, SocialLearningError>(SocialLearningError::ForumNotFound),
    {
        match self.forums.get(forum_id) {
            Some(f) => Ok(f),
            None => Err(SocialLearningError::ForumNotFound),
        }
    }

    /// The post `post_id`.
    pub fn get_forum_post(&self, post_id: u64) -> (r: Result<&ForumPost, SocialLearningError>)
        requires
            self.wf(),
        ensures
            self.forum_posts@.contains_key(post_id) ==> r == Ok::<&ForumPost, SocialLearningError>(&self.forum_posts@[post_id]),
            !self.forum_posts@.contains_key(post_id) ==> r == Err::<&ForumPost, SocialLearningError>(SocialLearningError::PostNotFound),
    {
        match self.forum_posts.get(post_id) {
            Some(p) => Ok(p),
            None => Err(SocialLearningError::PostNotFound),
        }
    }

    /// `creator` opens a workspace at `now`: active, with the creator as its
    /// only collaborator and no files or tasks.
    pub fn create_workspace(
        &mut self,
        creator: AccountId,
        name: Vec<u8>,
        description: Vec<u8>,
        project_type: ProjectType,
        settings: WorkspaceSettings,
        now: u64,
    ) -> (r: Result<u64, SocialLearningError>)
        requires
            old(self).wf(),
            old(self).workspace_counter < u64::MAX,
        ensures
            final(self).wf(),
            ({
                let id = (old(self).workspace_counter + 1) as u64;
                let w = final(self).workspaces@[id];
                &&& r == Ok::<u64, SocialLearningError>(id)
                &&& final(self).workspaces@.contains_key(id)
                &&& final(self).workspaces@.remove(id) == old(self).workspaces@.remove(id)
                &&& w.collaborators@ == seq![creator]
                &&& w.files@.len() == 0
                &&& w.tasks@.len() == 0
                &&& w == CollaborationWorkspace {
                    id,
                    name,
                    description,
                    creator,
                    collaborators: w.collaborators,
                    project_type,
                    status: WorkspaceStatus::Active,
                    created_at: now,
                    last_activity: now,
                    files: w.files,
                    tasks: w.tasks,
                    settings,
                }
                &&& final(self).user_workspaces@ == old(self).user_workspaces@.push(id)
                &&& *final(self) == SocialLearningManager {
                    workspace_counter: id,
                    workspaces: final(self).workspaces,
                    user_workspaces: final(self).user_workspaces,
                    ..*old(self)
                }
            }),
    {
        let id = self.workspace_counter + 1;
        let mut collaborators: Vec<AccountId> = Vec::new();
        collaborators.push(creator);
        let workspace = CollaborationWorkspace {
            id,
            name,
            description,
            creator,
            collaborators,
            project_type,
            status: WorkspaceStatus::Active,
            created_at: now,
            last_activity: now,
            files: Vec::new(),
            tasks: Vec::new(),
            settings,
        };
        self.workspaces.insert(id, workspace);
        assert(self.workspaces@.remove(id) =~= old(self).workspaces@.remove(id));
        self.user_workspaces.push(id);
        self.workspace_counter = id;
        Ok(id)
    }

    /// The workspace `workspace_id`.
    pub fn get_workspace(&self, workspace_id: u64) -> (r: Result<&CollaborationWorkspace, SocialLearningError>)
        requires
            self.wf(),
        ensures
            self.workspaces@.contains_key(workspace_id)
                ==> r == Ok::<&CollaborationWorkspace, SocialLearningError>(&self.workspaces@[workspace_id]),
            !self.workspaces@.contains_key(workspace_id)
                ==> r == Err::<&CollaborationWorkspace, SocialLearningError>(SocialLearningError::WorkspaceNotFound),
    {
        match self.workspaces.get(workspace_id) {
            Some(w) => Ok(w),
            None => Err(SocialLearningError::WorkspaceNotFound),
        }
    }

    /// The ids of the workspaces created; the list is shared by all users,
    /// so `user` does not select anything.
    pub fn get_user_workspaces(&self, user: AccountId) -> (r: Vec<u64>)
        ensures
            r@ == self.user_workspaces@,
    {
        copy_ids(&self.user_workspaces)
    }

    /// One user gives the work of another from 1 to 5 stars at `now`.
    pub fn create_review(
        &mut self,
        reviewer: AccountId,
        reviewee: AccountId,
        content_type: ReviewContentType,
        content_id: u64,
        rating: u32,
        feedback: Vec<u8>,
        criteria: Vec<(Vec<u8>, u32)>,
        now: u64,
    ) -> (r: Result<u64, SocialLearningError>)
        requires
            old(self).wf(),
            1 <= rating <= 5 ==> old(self).review_counter < u64::MAX,
        ensures
            final(self).wf(),
            !(1 <= rating <= 5) ==>
                r == Err::<u64, SocialLearningError>(SocialLearningError::InvalidRating) && *final(self) == *old(self),
            1 <= rating <= 5 ==> {
                let id = (old(self).review_counter + 1) as u64;
                &&& r == Ok::<u64, SocialLearningError>(id)
                &&& final(self).reviews@ == old(self).reviews@.insert(id, PeerReview {
                    id,
                    reviewer,
                    reviewee,
                    content_type,
                    content_id,
                    rating,
                    feedback,
                    criteria,
                    created_at: now,
                    is_helpful: false,
                    helpful_votes: 0,
                })
                &&& final(self).user_reviews@ == old(self).user_reviews@.push(id)
                &&& *final(self) == SocialLearningManager {
                    review_counter: id,
                    reviews: final(self).reviews,
                    user_reviews: final(self).user_reviews,
                    ..*old(self)
                }
            },
    {
        if rating < 1 || rating > 5 {
            return Err(SocialLearningError::InvalidRating);
        }
        let id = self.review_counter + 1;
        let review = PeerReview {
            id,
            reviewer,
            reviewee,
            content_type,
            content_id,
            rating,
            feedback,
            criteria,
            created_at: now,
            is_helpful: false,
            helpful_votes: 0,
        };
        self.reviews.insert(id, review);
        self.user_reviews.push(id);
        self.review_counter = id;
        Ok(id)
    }

    /// The review `review_id`.
    pub fn get_review(&self, review_id: u64) -> (r: Result<&PeerReview, SocialLearningError>)
        requires
            self.wf(),
        ensures
            self.reviews@.contains_key(review_id) ==> r == Ok::<&PeerReview, SocialLearningError>(&self.reviews@[review_id]),
            !self.reviews@.contains_key(review_id) ==> r == Err::<&PeerReview, SocialLearningError>(SocialLearningError::ReviewNotFound),
    {
        match self.reviews.get(review_id) {
            Some(v) => Ok(v),
            None => Err(SocialLearningError::ReviewNotFound),
        }
    }

    /// `mentor` sets up a profile, replacing any earlier one; its rating,
    /// counts and success rate start at zero.
    pub fn create_mentorship_profile(
        &mut self,
        mentor: AccountId,
        expertise_areas: Vec<Vec<u8>>,
        experience_level: ExperienceLevel,
        availability: AvailabilityStatus,
        hourly_rate: Option<u64>,
        bio: Vec<u8>,
        languages: Vec<Vec<u8>>,
        timezone: Vec<u8>,
    ) -> (r: Result<(), SocialLearningError>)
        requires
            old(self).wf(),
        ensures
            final(self).wf(),
            r is Ok,
            final(self).mentorship_profiles@ == old(self).mentorship_profiles@.insert(mentor, MentorshipProfile {
                mentor,
                expertise_areas,
                experience_level,
                availability,
                hourly_rate,
                bio,
                rating: 0,
                review_count: 0,
                mentee_count: 0,
                success_rate: 0,
                languages,
                timezone,
            }),
            *final(self) == (SocialLearningManager { mentorship_profiles: final(self).mentorship_profiles, ..*old(self) }),
    {
        let profile = MentorshipProfile {
            mentor,
            expertise_areas,
            experience_level,
            availability,
            hourly_rate,
            bio,
            rating: 0,
            review_count: 0,
            mentee_count: 0,
            success_rate: 0,
            languages,
            timezone,
        };
        self.mentorship_profiles.insert(mentor, profile);
        Ok(())
    }

    /// The profile of `mentor`.
    pub fn get_mentorship_profile(&self, mentor: AccountId) -> (r: Result<&MentorshipProfile, SocialLearningError>)
        requires
            self.wf(),
        ensures
            self.mentorship_profiles@.contains_key(mentor)
                ==> r == Ok::<&MentorshipProfile, SocialLearningError>(&self.mentorship_profiles@[mentor]),
            !self.mentorship_profiles@.contains_key(mentor)
                ==> r == Err::<&MentorshipProfile, SocialLearningError>(SocialLearningError::MentorshipProfileNotFound),
    {
        match self.mentorship_profiles.get(mentor) {
            Some(p) => Ok(p),
            None => Err(SocialLearningError::MentorshipProfileNotFound),
        }
    }

    /// The stored analytics record, whoever it was stored for; where none
    /// is stored, a fresh record for `user` at `now` with every figure zero.
    pub fn get_user_analytics(&self, user: AccountId, now: u64) -> (r: SocialAnalytics)
        ensures
            match self.social_analytics {
                Some(a) => same_analytics(r, a),
                None => {
                    &&& r.badges@.len() == 0
                    &&& r == SocialAnalytics {
                        user,
                        study_groups_joined: 0,
                        discussions_participated: 0,
                        posts_created: 0,
                        reviews_given: 0,
                        mentorship_hours: 0,
                        collaboration_projects: 0,
                        social_score: 0,
                        engagement_level: EngagementLevel::Low,
                        badges: r.badges,
                        last_updated: now,
                    }
                },
            },
    {
        match &self.social_analytics {
            Some(a) => a.duplicate(),
            None => SocialAnalytics {
                user,
                study_groups_joined: 0,
                discussions_participated: 0,
                posts_created: 0,
                reviews_given: 0,
                mentorship_hours: 0,
                collaboration_projects: 0,
                social_score: 0,
                engagement_level: EngagementLevel::Low,
                badges: Vec::new(),
                last_updated: now,
            },
        }
    }

    /// Store `analytics` in the single analytics slot; `user` selects
    /// nothing.
    pub fn update_user_analytics(&mut self, user: AccountId, analytics: SocialAnalytics)
        ensures
            *final(self) == (SocialLearningManager { social_analytics: Some(analytics), ..*old(self) }),
    {
        self.social_analytics = Some(analytics);
    }
}

/// Two analytics records agree in every figure and badge.
pub open spec fn same_analytics(a: SocialAnalytics, b: SocialAnalytics) -> bool {
    &&& a.badges@.len() == b.badges@.len()
    &&& forall|i: int| 0 <= i < a.badges@.len() ==> #[trigger] a.badges@[i]@ == b.badges@[i]@
    &&& a == SocialAnalytics { badges: a.badges, ..b }
}

impl SocialAnalytics {
    /// A field-by-field copy.
    pub fn duplicate(&self) -> (r: Self)
        ensures
            same_analytics(r, *self),
    {
        SocialAnalytics {
            user: self.user,
            study_groups_joined: self.study_groups_joined,
            discussions_participated: self.discussions_participated,
            posts_created: self.posts_created,
            reviews_given: self.reviews_given,
            mentorship_hours: self.mentorship_hours,
            collaboration_projects: self.collaboration_projects,
            social_score: self.social_score,
            engagement_level: self.engagement_level,
            badges: copy_byte_list(&self.badges),
            last_updated: self.last_updated,
        }
    }
}

/// Leaving a study group right after joining it gives back the members and
/// admins the group had; only the time of last activity differs.
pub proof fn law_leave_undoes_join(g: StudyGroup, g1: StudyGroup, g2: StudyGroup, user: AccountId, t1: u64, t2: u64)
    requires
        group_wf(g),
        !g.members@.contains(user),
        joined_group(g, g1, user, t1),
        left_group(g1, g2, user, t2),
    ensures
        g2.members@ == g.members@,
        g2.admins@ == g.admins@,
        g2 == (StudyGroup { members: g2.members, admins: g2.admins, last_activity: t2, ..g }),
{
    reveal(Seq::filter);
    assert(g.members@.push(user).drop_last() =~= g.members@);
    lemma_without_absent(g.members@, user);
    assert(!g.admins@.contains(user));
    lemma_without_absent(g.admins@, user);
}

} // verus!
