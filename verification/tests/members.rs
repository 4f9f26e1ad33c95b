use felidae_dao::dao::FelidaeDao;
use felidae_dao::events::{DaoEvent, MemberAdded, MemberRoleUpdated, MemberTerminated};
use felidae_dao::types::{DaoInfo, Error, MemberRole, MemberStatus};
use felidae_dao::AccountId;

fn acct(b: u8) -> AccountId {
    AccountId([b; 32])
}

fn admin() -> AccountId {
    acct(1)
}

fn dao_addr() -> AccountId {
    acct(200)
}

fn fresh_dao() -> FelidaeDao {
    FelidaeDao::new(
        admin(),
        "Felidae".to_string(),
        Some("https://felidae.example".to_string()),
        None,
        "A DAO of cats".to_string(),
    )
}

#[test]
fn new_dao_keeps_its_description_and_admin() {
    let mut dao = fresh_dao();
    let info = dao.get_dao_info();
    assert_eq!(
        info,
        DaoInfo {
            dao_name: "Felidae".to_string(),
            description: "A DAO of cats".to_string(),
            website: Some("https://felidae.example".to_string()),
            profile: None,
        }
    );
    assert_eq!(dao.get_admin(), admin());
    assert!(dao.is_admin(admin()));
    assert!(!dao.is_admin(acct(2)));
    assert!(dao.get_member_list(dao_addr()).is_empty());
    assert!(dao.drain_events().is_empty());
}

#[test]
fn admin_admits_a_member() {
    let mut dao = fresh_dao();
    assert_eq!(dao.add_member(admin(), dao_addr(), acct(10), "tom".to_string(), 1_700_000_000), Ok(()));
    assert!(dao.is_member(acct(10)));
    assert!(dao._is_member(acct(10)));
    let m = dao.get_member_info(acct(10)).unwrap();
    assert_eq!(m.name, "tom");
    assert_eq!(m.member_id, 0);
    assert_eq!(m.member_status, MemberStatus::Active);
    assert_eq!(m.member_efficiency, 0);
    assert_eq!(m.member_role, MemberRole::Unset);
    assert_eq!(m.start_time, "1700000000");
    assert_eq!(m.end_time, None);
    assert!(m.task_list.is_empty() && m.project_list.is_empty());
    // the event carries the id counter after it moved on
    assert_eq!(
        dao.drain_events(),
        vec![DaoEvent::MemberAdded(MemberAdded { dao_address: dao_addr(), member: acct(10), member_id: 1 })]
    );
}

#[test]
fn only_admin_admits_members() {
    let mut dao = fresh_dao();
    assert_eq!(
        dao.add_member(acct(2), dao_addr(), acct(10), "tom".to_string(), 5),
        Err(Error::ThisFunctionCanBeCalledFromDaoManager)
    );
    assert!(!dao.is_member(acct(10)));
    assert!(dao.drain_events().is_empty());
}

#[test]
fn a_member_is_admitted_once() {
    let mut dao = fresh_dao();
    assert_eq!(dao.add_member(admin(), dao_addr(), acct(10), "tom".to_string(), 5), Ok(()));
    assert_eq!(
        dao.add_member(admin(), dao_addr(), acct(10), "tom again".to_string(), 6),
        Err(Error::MemberAlreadyExists)
    );
    assert_eq!(dao.get_member_info(acct(10)).unwrap().name, "tom");
}

#[test]
fn unknown_member_is_not_found() {
    let dao = fresh_dao();
    assert_eq!(dao.get_member_info(acct(9)), Err(Error::MemberDoesNotExist));
    assert!(!dao.is_member(acct(9)));
}

#[test]
fn member_list_is_in_id_order_and_skips_deleted() {
    let mut dao = fresh_dao();
    for (i, who) in [10u8, 11, 12].iter().enumerate() {
        assert_eq!(dao.add_member(admin(), dao_addr(), acct(*who), format!("m{}", i), 100), Ok(()));
    }
    assert_eq!(dao.delete_member(admin(), dao_addr(), acct(11)), Ok(()));
    let names: Vec<String> = dao.get_member_list(dao_addr()).into_iter().map(|m| m.name).collect();
    assert_eq!(names, vec!["m0".to_string(), "m2".to_string()]);
    let ids: Vec<u16> = dao.get_member_list(dao_addr()).into_iter().map(|m| m.member_id).collect();
    assert_eq!(ids, vec![0, 2]);
}

#[test]
fn deleted_member_is_gone() {
    let mut dao = fresh_dao();
    assert_eq!(dao.add_member(admin(), dao_addr(), acct(10), "tom".to_string(), 5), Ok(()));
    assert_eq!(dao.delete_member(acct(3), dao_addr(), acct(10)), Err(Error::ThisFunctionCanBeCalledFromDaoManager));
    assert_eq!(dao.delete_member(admin(), dao_addr(), acct(10)), Ok(()));
    assert!(!dao.is_member(acct(10)));
    assert_eq!(dao.get_member_info(acct(10)), Err(Error::MemberDoesNotExist));
    assert_eq!(dao.delete_member(admin(), dao_addr(), acct(10)), Err(Error::MemberDoesNotExist));
    assert!(dao.get_member_list(dao_addr()).is_empty());
}

#[test]
fn terminated_member_stays_with_end_time() {
    let mut dao = fresh_dao();
    assert_eq!(dao.add_member(admin(), dao_addr(), acct(10), "tom".to_string(), 1000), Ok(()));
    dao.drain_events();
    assert_eq!(dao.terminate_member(admin(), 2000, dao_addr(), acct(11)), Err(Error::MemberDoesNotExist));
    assert_eq!(dao.terminate_member(admin(), 2000, dao_addr(), acct(10)), Ok(()));
    let m = dao.get_member_info(acct(10)).unwrap();
    assert_eq!(m.member_status, MemberStatus::Terminated);
    assert_eq!(m.start_time, "1000");
    assert_eq!(m.end_time, Some("2000".to_string()));
    assert_eq!(dao.get_member_list(dao_addr())[0].member_status, MemberStatus::Terminated);
    assert_eq!(
        dao.drain_events(),
        vec![DaoEvent::MemberTerminated(MemberTerminated {
            dao_address: dao_addr(),
            member_address: acct(10),
            start_time: "1000".to_string(),
            end_time: Some("2000".to_string()),
        })]
    );
}

#[test]
fn role_update_is_seen_everywhere() {
    let mut dao = fresh_dao();
    assert_eq!(dao.add_member(admin(), dao_addr(), acct(10), "tom".to_string(), 1), Ok(()));
    dao.drain_events();
    assert_eq!(
        dao.update_member_role(acct(10), dao_addr(), acct(10), MemberRole::Creator),
        Err(Error::ThisFunctionCanBeCalledFromDaoManager)
    );
    assert_eq!(
        dao.update_member_role(admin(), dao_addr(), acct(12), MemberRole::Creator),
        Err(Error::MemberDoesNotExist)
    );
    assert_eq!(dao.update_member_role(admin(), dao_addr(), acct(10), MemberRole::Auditor), Ok(()));
    assert_eq!(dao.get_member_info(acct(10)).unwrap().member_role, MemberRole::Auditor);
    assert_eq!(dao.get_member_list(dao_addr())[0].member_role, MemberRole::Auditor);
    assert_eq!(
        dao.drain_events(),
        vec![DaoEvent::MemberRoleUpdated(MemberRoleUpdated {
            dao_address: dao_addr(),
            member_address: acct(10),
            new_role: MemberRole::Auditor,
        })]
    );
}

#[test]
fn anyone_may_set_the_admin() {
    let mut dao = fresh_dao();
    dao.set_dao_admin(acct(7));
    assert_eq!(dao.get_admin(), acct(7));
    assert_eq!(
        dao.add_member(admin(), dao_addr(), acct(10), "tom".to_string(), 1),
        Err(Error::ThisFunctionCanBeCalledFromDaoManager)
    );
    assert_eq!(dao.add_member(acct(7), dao_addr(), acct(10), "tom".to_string(), 1), Ok(()));
}

#[test]
fn flip_changes_nothing() {
    let mut dao = fresh_dao();
    dao.flip();
    assert_eq!(dao.get_admin(), admin());
}

#[test]
fn partner_daos_are_registered_once() {
    let mut dao = fresh_dao();
    let info = DaoInfo {
        dao_name: "Canidae".to_string(),
        description: "dogs".to_string(),
        website: None,
        profile: Some("p".to_string()),
    };
    assert_eq!(dao.dao_as_member(acct(2), acct(50), info.clone()), Err(Error::ThisFunctionCanBeCalledFromDaoManager));
    assert_eq!(dao.get_dao_info_with_address(acct(50)), Err(Error::MemberDoesNotExist));
    assert_eq!(dao.dao_as_member(admin(), acct(50), info.clone()), Ok(()));
    assert_eq!(dao.get_dao_info_with_address(acct(50)), Ok(info.clone()));
    assert_eq!(dao.dao_as_member(admin(), acct(50), info), Err(Error::MemberAlreadyExists));
}
