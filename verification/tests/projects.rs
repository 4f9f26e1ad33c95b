use felidae_dao::dao::FelidaeDao;
use felidae_dao::events::{DaoEvent, ProjectCompleted, ProjectCreated, ProjectStatusUpdated, SprintAdded, TaskCreated};
use felidae_dao::types::{Error, ProjectStatus, ReviewOpinion, TaskStatus, TaskType};
use felidae_dao::AccountId;

fn acct(b: u8) -> AccountId {
    AccountId([b; 32])
}

const ADMIN: u8 = 1;
const ALICE: u8 = 10;
const BOB: u8 = 11;
const OUTSIDER: u8 = 99;

fn dao_addr() -> AccountId {
    acct(200)
}

fn dao_with_members() -> FelidaeDao {
    let mut dao = FelidaeDao::new(acct(ADMIN), "Felidae".to_string(), None, None, "cats".to_string());
    assert_eq!(dao.add_member(acct(ADMIN), dao_addr(), acct(ALICE), "alice".to_string(), 10), Ok(()));
    assert_eq!(dao.add_member(acct(ADMIN), dao_addr(), acct(BOB), "bob".to_string(), 11), Ok(()));
    dao.drain_events();
    dao
}

#[test]
fn projects_need_member_creator_and_assignee() {
    let mut dao = dao_with_members();
    assert_eq!(dao.create_project(acct(OUTSIDER), 100, "p".to_string(), dao_addr(), acct(BOB)), Err(Error::NotAMember));
    assert_eq!(dao.create_project(acct(ALICE), 100, "p".to_string(), dao_addr(), acct(OUTSIDER)), Err(Error::NotAMember));
    assert!(dao.get_project_list().is_empty());
    assert_eq!(dao.get_project_info(0), Err(Error::ProjectDoesNotExist));
}

#[test]
fn created_project_has_a_week_long_sprint() {
    let mut dao = dao_with_members();
    assert_eq!(dao.create_project(acct(ALICE), 1_000, "site".to_string(), dao_addr(), acct(BOB)), Ok(()));
    let p = dao.get_project_info(0).unwrap();
    assert_eq!(p.project_id, 0);
    assert_eq!(p.name, "site");
    assert_eq!(p.creator, acct(ALICE));
    assert_eq!(p.assigned_to, acct(BOB));
    assert_eq!(p.project_status, ProjectStatus::Active);
    assert_eq!(p.start_time, "1000");
    assert_eq!(p.end_time, None);
    assert!(p.task_list.is_empty());
    assert_eq!(p.sprint.project_id, 0);
    assert_eq!(p.sprint.start_date, "1000");
    assert_eq!(p.sprint.end_date, "605800");
    assert_eq!(p.sprint.action, 0);
    // the assignee's own record is not touched
    assert!(dao.get_member_info(acct(BOB)).unwrap().project_list.is_empty());
    assert_eq!(
        dao.drain_events(),
        vec![DaoEvent::ProjectCreated(ProjectCreated {
            dao_address: dao_addr(),
            creator: acct(ALICE),
            project_id: 0,
            assigned_to: acct(BOB),
            start_time: "1000".to_string(),
        })]
    );
    assert_eq!(dao.create_project(acct(BOB), 2_000, "app".to_string(), dao_addr(), acct(ALICE)), Ok(()));
    let names: Vec<String> = dao.get_project_list().into_iter().map(|p| p.name).collect();
    assert_eq!(names, vec!["site".to_string(), "app".to_string()]);
}

#[test]
fn only_the_creator_changes_a_project() {
    let mut dao = dao_with_members();
    assert_eq!(dao.create_project(acct(ALICE), 1_000, "site".to_string(), dao_addr(), acct(BOB)), Ok(()));
    dao.drain_events();
    assert_eq!(dao.update_project_status(acct(BOB), 5, dao_addr(), 0, ProjectStatus::Inactive), Err(Error::NotACreator));
    assert_eq!(dao.update_project_status(acct(ALICE), 5, dao_addr(), 3, ProjectStatus::Inactive), Err(Error::ProjectDoesNotExist));
    assert_eq!(dao.update_project_status(acct(ALICE), 5, dao_addr(), 0, ProjectStatus::Inactive), Ok(()));
    let p = dao.get_project_info(0).unwrap();
    assert_eq!(p.project_status, ProjectStatus::Inactive);
    assert_eq!(p.end_time, None);
    assert_eq!(dao.update_project_status(acct(ALICE), 7, dao_addr(), 0, ProjectStatus::Completed), Ok(()));
    let p = dao.get_project_info(0).unwrap();
    assert_eq!(p.project_status, ProjectStatus::Completed);
    assert_eq!(p.end_time, Some("7".to_string()));
    assert_eq!(
        dao.drain_events(),
        vec![
            DaoEvent::ProjectStatusUpdated(ProjectStatusUpdated { project_id: 0, status: ProjectStatus::Inactive }),
            DaoEvent::ProjectStatusUpdated(ProjectStatusUpdated { project_id: 0, status: ProjectStatus::Completed }),
        ]
    );
}

#[test]
fn closing_a_project_completes_it() {
    let mut dao = dao_with_members();
    assert_eq!(dao.create_project(acct(ALICE), 1_000, "site".to_string(), dao_addr(), acct(BOB)), Ok(()));
    dao.drain_events();
    assert_eq!(dao.close_project(acct(BOB), 9, dao_addr(), 0), Err(Error::NotACreator));
    assert_eq!(dao.close_project(acct(ALICE), 9, dao_addr(), 1), Err(Error::ProjectDoesNotExist));
    assert_eq!(dao.close_project(acct(ALICE), 9_000, dao_addr(), 0), Ok(()));
    let p = dao.get_project_info(0).unwrap();
    assert_eq!(p.project_status, ProjectStatus::Completed);
    assert_eq!(p.end_time, Some("9000".to_string()));
    assert_eq!(
        dao.drain_events(),
        vec![DaoEvent::ProjectCompleted(ProjectCompleted {
            project_id: 0,
            start_time: "1000".to_string(),
            end_time: Some("9000".to_string()),
        })]
    );
}

#[test]
fn sprint_is_replaced() {
    let mut dao = dao_with_members();
    assert_eq!(dao.create_sprint(0, "a".to_string(), "b".to_string()), Err(Error::ProjectDoesNotExist));
    assert_eq!(dao.create_project(acct(ALICE), 1_000, "site".to_string(), dao_addr(), acct(BOB)), Ok(()));
    dao.drain_events();
    assert_eq!(dao.create_sprint(0, "2024-01-01".to_string(), "2024-01-14".to_string()), Ok(()));
    let s = dao.get_project_info(0).unwrap().sprint;
    assert_eq!((s.project_id, s.start_date.as_str(), s.end_date.as_str(), s.action), (0, "2024-01-01", "2024-01-14", 0));
    assert_eq!(
        dao.drain_events(),
        vec![DaoEvent::SprintAdded(SprintAdded {
            project_id: 0,
            start_date: "2024-01-01".to_string(),
            end_date: "2024-01-14".to_string(),
        })]
    );
}

fn dao_with_project() -> FelidaeDao {
    let mut dao = dao_with_members();
    assert_eq!(dao.create_project(acct(ALICE), 1_000, "site".to_string(), dao_addr(), acct(BOB)), Ok(()));
    dao.drain_events();
    dao
}

#[test]
fn task_creation_checks_members_and_project() {
    let mut dao = dao_with_project();
    assert_eq!(dao.create_task(acct(OUTSIDER), 5, "t".to_string(), dao_addr(), acct(BOB), TaskType::Bug, 0), Err(Error::NotAMember));
    assert_eq!(dao.create_task(acct(ALICE), 5, "t".to_string(), dao_addr(), acct(OUTSIDER), TaskType::Bug, 0), Err(Error::NotAMember));
    assert_eq!(dao.create_task(acct(ALICE), 5, "t".to_string(), dao_addr(), acct(BOB), TaskType::Bug, 4), Err(Error::ProjectDoesNotExist));
    assert!(dao.get_task_list(dao_addr(), 0).is_empty());
    assert_eq!(dao.get_task_info(0), Err(Error::TaskDoesNotExist));
}

#[test]
fn created_task_is_listed_in_its_project() {
    let mut dao = dao_with_project();
    assert_eq!(dao.create_task(acct(ALICE), 1_500, "fix".to_string(), dao_addr(), acct(BOB), TaskType::Bug, 0), Ok(()));
    assert_eq!(dao.create_task(acct(BOB), 1_600, "add".to_string(), dao_addr(), acct(ALICE), TaskType::Feature, 0), Ok(()));
    let t = dao.get_task_info(0).unwrap();
    assert_eq!((t.task_id, t.project_id, t.name.as_str()), (0, 0, "fix"));
    assert_eq!((t.creator, t.assigned_to), (acct(ALICE), acct(BOB)));
    assert_eq!(t.task_status, TaskStatus::ToDO);
    assert_eq!(t.task_type, TaskType::Bug);
    assert_eq!(t.start_time, "1500");
    assert_eq!((t.end_time, t.review, t.total_time_logged_in), (None, None, None));
    assert_eq!(dao.get_project_info(0).unwrap().task_list, vec![0, 1]);
    assert!(dao.get_member_info(acct(BOB)).unwrap().task_list.is_empty());
    let names: Vec<String> = dao.get_task_list(dao_addr(), 7).into_iter().map(|t| t.name).collect();
    assert_eq!(names, vec!["fix".to_string(), "add".to_string()]);
    assert_eq!(
        dao.drain_events()[0],
        DaoEvent::TaskCreated(TaskCreated {
            task_id: 0,
            project_id: 0,
            creator: acct(ALICE),
            assigned_to: acct(BOB),
            task_type: TaskType::Bug,
            start_time: "1500".to_string(),
        })
    );
}

#[test]
fn reviews_replace_earlier_ones() {
    let mut dao = dao_with_project();
    assert_eq!(dao.create_task(acct(ALICE), 1_500, "fix".to_string(), dao_addr(), acct(BOB), TaskType::Bug, 0), Ok(()));
    assert_eq!(dao.create_review(acct(OUTSIDER), dao_addr(), acct(BOB), 0, 0, vec![1], ReviewOpinion::YES), Err(Error::NotAMember));
    assert_eq!(dao.create_review(acct(ALICE), dao_addr(), acct(OUTSIDER), 0, 0, vec![1], ReviewOpinion::YES), Err(Error::NotAMember));
    assert_eq!(dao.create_review(acct(ALICE), dao_addr(), acct(BOB), 0, 9, vec![1], ReviewOpinion::YES), Err(Error::ProjectDoesNotExist));
    assert_eq!(dao.create_review(acct(ALICE), dao_addr(), acct(BOB), 9, 0, vec![1], ReviewOpinion::YES), Err(Error::TaskDoesNotExist));
    assert_eq!(dao.create_review(acct(ALICE), dao_addr(), acct(BOB), 0, 0, vec![1, 2], ReviewOpinion::YES), Ok(()));
    assert_eq!(dao.create_review(acct(ALICE), dao_addr(), acct(ALICE), 0, 0, vec![3], ReviewOpinion::NO), Ok(()));
    let r = dao.get_task_info(0).unwrap().review.unwrap().records;
    assert_eq!((r.who, r.meta, r.option), (acct(ALICE), vec![3], ReviewOpinion::NO));
}

#[test]
fn task_status_needs_creator_who_is_assignee() {
    let mut dao = dao_with_project();
    assert_eq!(dao.create_task(acct(ALICE), 1_500, "fix".to_string(), dao_addr(), acct(BOB), TaskType::Bug, 0), Ok(()));
    assert_eq!(dao.create_task(acct(ALICE), 1_500, "own".to_string(), dao_addr(), acct(ALICE), TaskType::Bug, 0), Ok(()));
    assert_eq!(dao.update_task_status(acct(OUTSIDER), 2, dao_addr(), 0, TaskStatus::InProgress), Err(Error::NotAMember));
    assert_eq!(dao.update_task_status(acct(ALICE), 2, dao_addr(), 5, TaskStatus::InProgress), Err(Error::TaskDoesNotExist));
    assert_eq!(dao.update_task_status(acct(ALICE), 2, dao_addr(), 0, TaskStatus::InProgress), Err(Error::NotaTaskAuthority));
    assert_eq!(dao.update_task_status(acct(BOB), 2, dao_addr(), 0, TaskStatus::InProgress), Err(Error::NotaTaskAuthority));
    assert_eq!(dao.update_task_status(acct(ALICE), 2, dao_addr(), 1, TaskStatus::InProgress), Ok(()));
    assert_eq!(dao.get_task_info(1).unwrap().task_status, TaskStatus::InProgress);
    assert_eq!(dao.get_task_info(1).unwrap().end_time, None);
    assert_eq!(dao.update_task_status(acct(ALICE), 3, dao_addr(), 1, TaskStatus::Completed), Ok(()));
    assert_eq!(dao.get_task_info(1).unwrap().end_time, Some("3".to_string()));
}

#[test]
fn closing_a_task_needs_its_creator() {
    let mut dao = dao_with_project();
    assert_eq!(dao.close_task(acct(ALICE), 2, dao_addr(), 0), Err(Error::ProjectDoesNotExist));
    assert_eq!(dao.create_task(acct(ALICE), 1_500, "fix".to_string(), dao_addr(), acct(BOB), TaskType::Bug, 0), Ok(()));
    assert_eq!(dao.close_task(acct(BOB), 2, dao_addr(), 0), Err(Error::NotACreator));
    assert_eq!(dao.close_task(acct(ALICE), 2_000, dao_addr(), 0), Ok(()));
    let t = dao.get_task_info(0).unwrap();
    assert_eq!(t.task_status, TaskStatus::Completed);
    assert_eq!(t.end_time, Some("2000".to_string()));
}

#[test]
fn logged_time_adds_up_for_the_assignee() {
    let mut dao = dao_with_project();
    assert_eq!(dao.time_log(acct(BOB), dao_addr(), 0, 0, 5), Err(Error::TaskDoesNotExist));
    assert_eq!(dao.create_task(acct(ALICE), 1_500, "fix".to_string(), dao_addr(), acct(BOB), TaskType::Bug, 0), Ok(()));
    assert_eq!(dao.time_log(acct(ALICE), dao_addr(), 0, 0, 5), Err(Error::NotaTaskAuthority));
    assert_eq!(dao.time_log(acct(BOB), dao_addr(), 0, 0, 5), Ok(()));
    assert_eq!(dao.get_task_info(0).unwrap().total_time_logged_in, Some(5));
    assert_eq!(dao.time_log(acct(BOB), dao_addr(), 0, 0, 7), Ok(()));
    assert_eq!(dao.get_task_info(0).unwrap().total_time_logged_in, Some(12));
}
