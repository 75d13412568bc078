use teachlink::social_learning::{
    AvailabilityStatus, EngagementLevel, ExperienceLevel, ProjectType, ReviewContentType, SocialLearningError,
    SocialLearningManager, StudyGroupSettings, WorkspaceSettings, WorkspaceStatus,
};

fn settings() -> StudyGroupSettings {
    StudyGroupSettings {
        allow_member_invites: true,
        require_admin_approval: false,
        enable_chat: true,
        enable_file_sharing: true,
        enable_video_calls: false,
        auto_approve_members: true,
    }
}

fn new_group(m: &mut SocialLearningManager, creator: u64, max_members: u32) -> u64 {
    m.create_study_group(creator, b"rust".to_vec(), b"learn rust".to_vec(), b"cs".to_vec(), max_members, false, vec![b"beginner".to_vec()], settings(), 100)
        .unwrap()
}

#[test]
fn study_group_starts_with_its_creator() {
    let mut m = SocialLearningManager::new();
    let id = new_group(&mut m, 7, 3);
    assert_eq!(id, 1);
    let g = m.get_study_group(id).unwrap();
    assert_eq!(g.members, vec![7]);
    assert_eq!(g.admins, vec![7]);
    assert_eq!((g.created_at, g.last_activity, g.max_members), (100, 100, 3));
    assert_eq!(new_group(&mut m, 8, 3), 2);
    assert_eq!(m.get_user_study_groups(99), vec![1, 2]);
    assert_eq!(m.get_study_group(3).unwrap_err(), SocialLearningError::StudyGroupNotFound);
}

#[test]
fn joining_checks_membership_and_capacity() {
    let mut m = SocialLearningManager::new();
    let id = new_group(&mut m, 7, 2);
    assert_eq!(m.join_study_group(8, 5, 200), Err(SocialLearningError::StudyGroupNotFound));
    assert_eq!(m.join_study_group(7, id, 200), Err(SocialLearningError::AlreadyMember));
    assert_eq!(m.join_study_group(8, id, 200), Ok(()));
    assert_eq!(m.join_study_group(9, id, 300), Err(SocialLearningError::MaxMembersReached));
    let g = m.get_study_group(id).unwrap();
    assert_eq!(g.members, vec![7, 8]);
    assert_eq!(g.last_activity, 200);
    assert_eq!(m.get_user_study_groups(8), vec![1, 1]);
}

#[test]
fn leaving_after_joining_restores_the_group() {
    let mut m = SocialLearningManager::new();
    let id = new_group(&mut m, 7, 5);
    m.join_study_group(8, id, 200).unwrap();
    assert_eq!(m.leave_study_group(9, id, 300), Err(SocialLearningError::Unauthorized));
    assert_eq!(m.leave_study_group(8, 42, 300), Err(SocialLearningError::StudyGroupNotFound));
    m.leave_study_group(8, id, 300).unwrap();
    let g = m.get_study_group(id).unwrap();
    assert_eq!(g.members, vec![7]);
    assert_eq!(g.admins, vec![7]);
    assert_eq!(g.last_activity, 300);
    // the shared list drops every entry of the group
    assert_eq!(m.get_user_study_groups(7), Vec::<u64>::new());
}

#[test]
fn creator_leaving_removes_admin_too() {
    let mut m = SocialLearningManager::new();
    let id = new_group(&mut m, 7, 5);
    m.join_study_group(8, id, 200).unwrap();
    m.leave_study_group(7, id, 250).unwrap();
    let g = m.get_study_group(id).unwrap();
    assert_eq!(g.members, vec![8]);
    assert!(g.admins.is_empty());
}

#[test]
fn forums_and_posts_share_one_counter() {
    let mut m = SocialLearningManager::new();
    let f = m.create_forum(1, b"t".to_vec(), b"d".to_vec(), b"c".to_vec(), vec![], 10).unwrap();
    assert_eq!(f, 1);
    let p = m.create_forum_post(f, 2, b"hi".to_vec(), b"body".to_vec(), vec![], 20).unwrap();
    assert_eq!(p, 2);
    let forum = m.get_forum(f).unwrap();
    assert_eq!((forum.post_count, forum.last_post_at), (1, 20));
    let post = m.get_forum_post(p).unwrap();
    assert_eq!((post.forum_id, post.author, post.created_at), (f, 2, 20));
    assert_eq!(m.create_forum_post(9, 2, vec![], vec![], vec![], 20), Err(SocialLearningError::ForumNotFound));
    assert_eq!(m.get_forum(9).unwrap_err(), SocialLearningError::ForumNotFound);
    assert_eq!(m.get_forum_post(9).unwrap_err(), SocialLearningError::PostNotFound);
}

#[test]
fn locked_forum_refuses_posts() {
    let mut m = SocialLearningManager::new();
    let f = m.create_forum(1, vec![], vec![], vec![], vec![], 10).unwrap();
    let mut forum = m.forums.remove(f).unwrap();
    forum.is_locked = true;
    m.forums.insert(f, forum);
    assert_eq!(m.create_forum_post(f, 2, vec![], vec![], vec![], 20), Err(SocialLearningError::InsufficientPermissions));
    assert_eq!(m.forum_counter, 1);
}

#[test]
fn workspace_starts_active_with_its_creator() {
    let mut m = SocialLearningManager::new();
    let ws = WorkspaceSettings {
        allow_public_view: true,
        require_approval_to_join: false,
        enable_chat: true,
        enable_video_calls: true,
        auto_save_interval: 60,
    };
    let id = m.create_workspace(3, b"w".to_vec(), b"d".to_vec(), ProjectType::Research, ws, 50).unwrap();
    let w = m.get_workspace(id).unwrap();
    assert_eq!(w.collaborators, vec![3]);
    assert_eq!(w.status, WorkspaceStatus::Active);
    assert!(w.files.is_empty() && w.tasks.is_empty());
    assert_eq!(m.get_user_workspaces(3), vec![id]);
    assert_eq!(m.get_workspace(id + 1).unwrap_err(), SocialLearningError::WorkspaceNotFound);
}

#[test]
fn reviews_need_one_to_five_stars() {
    let mut m = SocialLearningManager::new();
    assert_eq!(m.create_review(1, 2, ReviewContentType::Project, 9, 0, vec![], vec![], 5), Err(SocialLearningError::InvalidRating));
    assert_eq!(m.create_review(1, 2, ReviewContentType::Project, 9, 6, vec![], vec![], 5), Err(SocialLearningError::InvalidRating));
    let id = m.create_review(1, 2, ReviewContentType::Project, 9, 5, b"good".to_vec(), vec![(b"clarity".to_vec(), 4)], 5).unwrap();
    assert_eq!(id, 1);
    let r = m.get_review(id).unwrap();
    assert_eq!((r.rating, r.helpful_votes, r.is_helpful), (5, 0, false));
    assert_eq!(m.get_review(2).unwrap_err(), SocialLearningError::ReviewNotFound);
    assert_eq!(m.user_reviews, vec![1]);
}

#[test]
fn mentorship_profile_starts_at_zero() {
    let mut m = SocialLearningManager::new();
    assert_eq!(m.get_mentorship_profile(4).unwrap_err(), SocialLearningError::MentorshipProfileNotFound);
    m.create_mentorship_profile(4, vec![b"math".to_vec()], ExperienceLevel::Expert, AvailabilityStatus::Available, Some(30), b"bio".to_vec(), vec![], b"UTC".to_vec()).unwrap();
    let p = m.get_mentorship_profile(4).unwrap();
    assert_eq!((p.rating, p.review_count, p.mentee_count, p.success_rate), (0, 0, 0, 0));
    assert_eq!(p.hourly_rate, Some(30));
}

#[test]
fn analytics_default_then_stored_slot() {
    let mut m = SocialLearningManager::new();
    let a = m.get_user_analytics(5, 77);
    assert_eq!((a.user, a.social_score, a.last_updated), (5, 0, 77));
    assert_eq!(a.engagement_level, EngagementLevel::Low);
    let mut b = m.get_user_analytics(5, 77);
    b.social_score = 40;
    b.badges.push(b"helper".to_vec());
    m.update_user_analytics(5, b);
    let c = m.get_user_analytics(6, 90);
    assert_eq!((c.user, c.social_score, c.last_updated), (5, 40, 77));
    assert_eq!(c.badges, vec![b"helper".to_vec()]);
}

#[test]
fn error_codes_are_stable() {
    assert_eq!(SocialLearningError::Unauthorized.code(), 1);
    assert_eq!(SocialLearningError::MaxMembersReached.code(), 4);
    assert_eq!(SocialLearningError::InvalidRating.code(), 11);
    assert_eq!(SocialLearningError::ResourceNotFound.code(), 15);
}

