//! Properties of the DAO that hold across its operations.
use vstd::prelude::*;
use crate::account::AccountId;
use crate::model;
use crate::model::DaoView;
use crate::types::{DaoInfoView, Error, MemberRole, MemberStatus, ProjectStatus, ReviewOpinion, TaskStatus, TaskType};

verus! {

/// A refused request leaves the DAO as it was: every operation that answers
/// with an error changes no record, no counter and emits no event.
pub proof fn lemma_refusal_changes_nothing(s: DaoView)
    ensures
        forall|caller: AccountId, dao: AccountId, member: AccountId, name: Seq<char>, now: u64|
            #[trigger] model::add_member(s, caller, dao, member, name, now).1 is Err
                ==> model::add_member(s, caller, dao, member, name, now).0 == s,
        forall|caller: AccountId, member: AccountId|
            #[trigger] model::delete_member(s, caller, member).1 is Err
                ==> model::delete_member(s, caller, member).0 == s,
        forall|caller: AccountId, dao: AccountId, member: AccountId, now: u64|
            #[trigger] model::terminate_member(s, caller, dao, member, now).1 is Err
                ==> model::terminate_member(s, caller, dao, member, now).0 == s,
        forall|caller: AccountId, dao: AccountId, member: AccountId, role: MemberRole|
            #[trigger] model::update_member_role(s, caller, dao, member, role).1 is Err
                ==> model::update_member_role(s, caller, dao, member, role).0 == s,
        forall|caller: AccountId, dao: AccountId, t: crate::types::TokenType, token: AccountId|
            #[trigger] model::add_dao_token(s, caller, dao, t, token).1 is Err
                ==> model::add_dao_token(s, caller, dao, t, token).0 == s,
        forall|caller: AccountId, token: AccountId, to: AccountId, amount: u128, delivered: bool, announce: bool|
            #[trigger] model::distribute(s, caller, token, to, amount, delivered, announce).1 is Err
                ==> model::distribute(s, caller, token, to, amount, delivered, announce).0 == s,
        forall|caller: AccountId, now: u64, name: Seq<char>, dao: AccountId, assigned: AccountId|
            #[trigger] model::create_project(s, caller, now, name, dao, assigned).1 is Err
                ==> model::create_project(s, caller, now, name, dao, assigned).0 == s,
        forall|caller: AccountId, now: u64, id: u16, status: ProjectStatus|
            #[trigger] model::update_project_status(s, caller, now, id, status).1 is Err
                ==> model::update_project_status(s, caller, now, id, status).0 == s,
        forall|caller: AccountId, now: u64, id: u16|
            #[trigger] model::close_project(s, caller, now, id).1 is Err
                ==> model::close_project(s, caller, now, id).0 == s,
        forall|id: u16, start: Seq<char>, end: Seq<char>|
            #[trigger] model::create_sprint(s, id, start, end).1 is Err
                ==> model::create_sprint(s, id, start, end).0 == s,
        forall|caller: AccountId, now: u64, name: Seq<char>, dao: AccountId, assigned: AccountId, tt: TaskType, pid: u16|
            #[trigger] model::create_task(s, caller, now, name, dao, assigned, tt, pid).1 is Err
                ==> model::create_task(s, caller, now, name, dao, assigned, tt, pid).0 == s,
        forall|caller: AccountId, reviewer: AccountId, tid: u16, pid: u16, meta: Seq<u8>, o: ReviewOpinion|
            #[trigger] model::create_review(s, caller, reviewer, tid, pid, meta, o).1 is Err
                ==> model::create_review(s, caller, reviewer, tid, pid, meta, o).0 == s,
        forall|caller: AccountId, now: u64, tid: u16, status: TaskStatus|
            #[trigger] model::update_task_status(s, caller, now, tid, status).1 is Err
                ==> model::update_task_status(s, caller, now, tid, status).0 == s,
        forall|caller: AccountId, now: u64, tid: u16|
            #[trigger] model::close_task(s, caller, now, tid).1 is Err
                ==> model::close_task(s, caller, now, tid).0 == s,
        forall|caller: AccountId, tid: u16, time: u16|
            #[trigger] model::time_log(s, caller, tid, time).1 is Err
                ==> model::time_log(s, caller, tid, time).0 == s,
        forall|caller: AccountId, rate: u8, duration: u64|
            #[trigger] model::set_stake_data(s, caller, rate, duration).1 is Err
                ==> model::set_stake_data(s, caller, rate, duration).0 == s,
        forall|caller: AccountId, balance: u128, delivered: bool|
            #[trigger] model::early_withdraw(s, caller, balance, delivered).1 is Err
                ==> model::early_withdraw(s, caller, balance, delivered).0 == s,
        forall|caller: AccountId, contract: AccountId, now: u64, amount: u128|
            #[trigger] model::add_stake(s, caller, contract, now, amount).1 is Err
                ==> model::add_stake(s, caller, contract, now, amount).0 == s,
        forall|caller: AccountId, now: u64, balance: u128, delivered: bool|
            #[trigger] model::redeem_stake(s, caller, now, balance, delivered).1 is Err
                ==> model::redeem_stake(s, caller, now, balance, delivered).0 == s,
        forall|caller: AccountId, dao: AccountId, info: DaoInfoView|
            #[trigger] model::dao_as_member(s, caller, dao, info).1 is Err
                ==> model::dao_as_member(s, caller, dao, info).0 == s,
{
}

/// Only the administrator manages the DAO: a request from anyone else to
/// admit, remove, terminate or re-role a member, to register a token, to
/// distribute tokens or to register a partner DAO is refused as coming from
/// outside the DAO's management, and one to set the staking parameters as
/// not coming from the admin.
pub proof fn lemma_only_admin_manages(
    s: DaoView,
    caller: AccountId,
    dao: AccountId,
    member: AccountId,
    name: Seq<char>,
    now: u64,
    role: MemberRole,
    token_type: crate::types::TokenType,
    token: AccountId,
    to: AccountId,
    amount: u128,
    delivered: bool,
    announce: bool,
    info: DaoInfoView,
    rate: u8,
    duration: u64,
)
    requires
        caller != s.dao_admin,
    ensures
        model::add_member(s, caller, dao, member, name, now).1 == Err::<(), Error>(
            Error::ThisFunctionCanBeCalledFromDaoManager,
        ),
        model::delete_member(s, caller, member).1 == Err::<(), Error>(
            Error::ThisFunctionCanBeCalledFromDaoManager,
        ),
        model::terminate_member(s, caller, dao, member, now).1 == Err::<(), Error>(
            Error::ThisFunctionCanBeCalledFromDaoManager,
        ),
        model::update_member_role(s, caller, dao, member, role).1 == Err::<(), Error>(
            Error::ThisFunctionCanBeCalledFromDaoManager,
        ),
        model::add_dao_token(s, caller, dao, token_type, token).1 == Err::<(), Error>(
            Error::ThisFunctionCanBeCalledFromDaoManager,
        ),
        model::distribute(s, caller, token, to, amount, delivered, announce).1 == Err::<(), Error>(
            Error::ThisFunctionCanBeCalledFromDaoManager,
        ),
        model::dao_as_member(s, caller, dao, info).1 == Err::<(), Error>(
            Error::ThisFunctionCanBeCalledFromDaoManager,
        ),
        model::set_stake_data(s, caller, rate, duration).1 == Err::<(), Error>(Error::NotAAdmin),
{
}

/// A new DAO is consistent.
pub proof fn lemma_initial_wf(admin: AccountId, info: DaoInfoView)
    ensures
        model::initial(admin, info).wf(),
{
}

/// Admitting a member keeps the registry consistent: the new member gets the
/// next id, unused so far.
pub proof fn lemma_add_member_keeps_wf(
    s: DaoView,
    caller: AccountId,
    dao: AccountId,
    member: AccountId,
    name: Seq<char>,
    now: u64,
)
    requires
        s.wf(),
        model::add_member_fits(s, caller, member),
    ensures
        model::add_member(s, caller, dao, member, name, now).0.wf(),
{
    let t = model::add_member(s, caller, dao, member, name, now).0;
    if model::add_member(s, caller, dao, member, name, now).1 is Ok {
        assert forall|a: AccountId, b: AccountId|
            #![trigger t.members[a], t.members[b]]
            t.members.contains_key(a) && t.members.contains_key(b) && t.members[a].member_id
                == t.members[b].member_id implies a == b by {
            if a != member && b != member {
                assert(s.members[a].member_id == s.members[b].member_id);
            } else if a != member {
                assert(s.members[a].member_id < s.next_member_id);
            } else if b != member {
                assert(s.members[b].member_id < s.next_member_id);
            }
        }
        assert forall|i: u16| #[trigger] t.member_by_id.contains_key(i) implies exists|a: AccountId| #[trigger]
            t.members.contains_key(a) && t.members[a].member_id == i by {
            if i == s.next_member_id {
                assert(t.members.contains_key(member) && t.members[member].member_id == i);
            } else {
                let a = choose|a: AccountId| #[trigger] s.members.contains_key(a) && s.members[a].member_id == i;
                assert(t.members.contains_key(a) && t.members[a].member_id == i);
            }
        }
    }
}

/// Removing a member keeps the registry consistent.
pub proof fn lemma_delete_member_keeps_wf(s: DaoView, caller: AccountId, member: AccountId)
    requires
        s.wf(),
    ensures
        model::delete_member(s, caller, member).0.wf(),
{
    let t = model::delete_member(s, caller, member).0;
    if model::delete_member(s, caller, member).1 is Ok {
        let id = s.members[member].member_id;
        assert forall|a: AccountId| #[trigger] t.members.contains_key(a) implies {
            let m = t.members[a];
            &&& m.member_id < t.next_member_id
            &&& t.member_by_id.contains_key(m.member_id)
            &&& t.member_by_id[m.member_id] == m
        } by {
            assert(s.members.contains_key(a));
            if s.members[a].member_id == id {
                assert(s.members[a] == s.members[a] && s.members[member] == s.members[member]);
            }
        }
        assert forall|i: u16| #[trigger] t.member_by_id.contains_key(i) implies exists|a: AccountId| #[trigger]
            t.members.contains_key(a) && t.members[a].member_id == i by {
            let a = choose|a: AccountId| #[trigger] s.members.contains_key(a) && s.members[a].member_id == i;
            assert(t.members.contains_key(a) && t.members[a].member_id == i);
        }
    }
}

/// Terminating a member keeps the registry consistent.
pub proof fn lemma_terminate_member_keeps_wf(
    s: DaoView,
    caller: AccountId,
    dao: AccountId,
    member: AccountId,
    now: u64,
)
    requires
        s.wf(),
    ensures
        model::terminate_member(s, caller, dao, member, now).0.wf(),
{
    let t = model::terminate_member(s, caller, dao, member, now).0;
    if model::terminate_member(s, caller, dao, member, now).1 is Ok {
        let id = s.members[member].member_id;
        assert forall|a: AccountId| #[trigger] t.members.contains_key(a) implies {
            let m = t.members[a];
            &&& m.member_id < t.next_member_id
            &&& t.member_by_id.contains_key(m.member_id)
            &&& t.member_by_id[m.member_id] == m
        } by {
            if a != member && s.members[a].member_id == id {
                assert(s.members[a] == s.members[a] && s.members[member] == s.members[member]);
            }
        }
        assert forall|a: AccountId, b: AccountId|
            #![trigger t.members[a], t.members[b]]
            t.members.contains_key(a) && t.members.contains_key(b) && t.members[a].member_id
                == t.members[b].member_id implies a == b by {
            assert(s.members[a].member_id == s.members[b].member_id);
        }
        assert forall|i: u16| #[trigger] t.member_by_id.contains_key(i) implies exists|a: AccountId| #[trigger]
            t.members.contains_key(a) && t.members[a].member_id == i by {
            let a = choose|a: AccountId| #[trigger] s.members.contains_key(a) && s.members[a].member_id == i;
            assert(t.members.contains_key(a) && t.members[a].member_id == i);
        }
    }
}

/// Changing a member's role keeps the registry consistent.
pub proof fn lemma_update_member_role_keeps_wf(
    s: DaoView,
    caller: AccountId,
    dao: AccountId,
    member: AccountId,
    role: MemberRole,
)
    requires
        s.wf(),
    ensures
        model::update_member_role(s, caller, dao, member, role).0.wf(),
{
    let t = model::update_member_role(s, caller, dao, member, role).0;
    if model::update_member_role(s, caller, dao, member, role).1 is Ok {
        let id = s.members[member].member_id;
        assert forall|a: AccountId| #[trigger] t.members.contains_key(a) implies {
            let m = t.members[a];
            &&& m.member_id < t.next_member_id
            &&& t.member_by_id.contains_key(m.member_id)
            &&& t.member_by_id[m.member_id] == m
        } by {
            if a != member && s.members[a].member_id == id {
                assert(s.members[a] == s.members[a] && s.members[member] == s.members[member]);
            }
        }
        assert forall|a: AccountId, b: AccountId|
            #![trigger t.members[a], t.members[b]]
            t.members.contains_key(a) && t.members.contains_key(b) && t.members[a].member_id
                == t.members[b].member_id implies a == b by {
            assert(s.members[a].member_id == s.members[b].member_id);
        }
        assert forall|i: u16| #[trigger] t.member_by_id.contains_key(i) implies exists|a: AccountId| #[trigger]
            t.members.contains_key(a) && t.members[a].member_id == i by {
            let a = choose|a: AccountId| #[trigger] s.members.contains_key(a) && s.members[a].member_id == i;
            assert(t.members.contains_key(a) && t.members[a].member_id == i);
        }
    }
}

/// Opening a project keeps the registry consistent: it is filed under the
/// next project id.
pub proof fn lemma_create_project_keeps_wf(
    s: DaoView,
    caller: AccountId,
    now: u64,
    name: Seq<char>,
    dao: AccountId,
    assigned: AccountId,
)
    requires
        s.wf(),
        model::create_project_fits(s, caller, assigned, now),
    ensures
        model::create_project(s, caller, now, name, dao, assigned).0.wf(),
{
}

/// Changing a project's status, closing it or replacing its sprint keeps the
/// registry consistent.
pub proof fn lemma_project_updates_keep_wf(
    s: DaoView,
    caller: AccountId,
    now: u64,
    id: u16,
    status: ProjectStatus,
    start: Seq<char>,
    end: Seq<char>,
)
    requires
        s.wf(),
    ensures
        model::update_project_status(s, caller, now, id, status).0.wf(),
        model::close_project(s, caller, now, id).0.wf(),
        model::create_sprint(s, id, start, end).0.wf(),
{
}

/// Opening a task keeps the registry consistent: it is filed under the next
/// task id, in an existing project.
pub proof fn lemma_create_task_keeps_wf(
    s: DaoView,
    caller: AccountId,
    now: u64,
    name: Seq<char>,
    dao: AccountId,
    assigned: AccountId,
    task_type: TaskType,
    project_id: u16,
)
    requires
        s.wf(),
        model::create_task_fits(s, caller, assigned, project_id),
    ensures
        model::create_task(s, caller, now, name, dao, assigned, task_type, project_id).0.wf(),
{
    let t = model::create_task(s, caller, now, name, dao, assigned, task_type, project_id).0;
    if model::create_task(s, caller, now, name, dao, assigned, task_type, project_id).1 is Ok {
        let id = s.next_task_id;
        let old_list = s.projects[project_id].task_list;
        assert(t.projects[project_id].task_list == old_list.push(id));
        assert forall|i: u16| #[trigger] t.tasks.contains_key(i) implies t.projects[t.tasks[i].project_id].task_list.contains(i) by {
            if i == id {
                assert(old_list.push(id)[old_list.len() as int] == id);
            } else if s.tasks[i].project_id == project_id {
                let k = choose|k: int| 0 <= k < old_list.len() && old_list[k] == i;
                assert(old_list.push(id)[k] == i);
            } else {
                assert(s.projects[s.tasks[i].project_id].task_list.contains(i));
            }
        }
    }
}

/// Reviewing, re-statusing, closing a task and logging time on it keep the
/// registry consistent.
pub proof fn lemma_task_updates_keep_wf(
    s: DaoView,
    caller: AccountId,
    reviewer: AccountId,
    now: u64,
    task_id: u16,
    project_id: u16,
    meta: Seq<u8>,
    opinion: ReviewOpinion,
    status: TaskStatus,
    time: u16,
)
    requires
        s.wf(),
    ensures
        model::create_review(s, caller, reviewer, task_id, project_id, meta, opinion).0.wf(),
        model::update_task_status(s, caller, now, task_id, status).0.wf(),
        model::close_task(s, caller, now, task_id).0.wf(),
        model::time_log(s, caller, task_id, time).0.wf(),
{
}

/// Tokens, stakes and partner DAOs are kept apart from the registry: the
/// operations on them keep it consistent.
pub proof fn lemma_other_operations_keep_wf(
    s: DaoView,
    caller: AccountId,
    dao: AccountId,
    token_type: crate::types::TokenType,
    token: AccountId,
    to: AccountId,
    amount: u128,
    delivered: bool,
    announce: bool,
    rate: u8,
    duration: u64,
    balance: u128,
    now: u64,
    info: DaoInfoView,
    admin: AccountId,
)
    requires
        s.wf(),
    ensures
        model::add_dao_token(s, caller, dao, token_type, token).0.wf(),
        model::distribute(s, caller, token, to, amount, delivered, announce).0.wf(),
        model::set_stake_data(s, caller, rate, duration).0.wf(),
        model::early_withdraw(s, caller, balance, delivered).0.wf(),
        model::add_stake(s, caller, dao, now, amount).0.wf(),
        model::redeem_stake(s, caller, now, balance, delivered).0.wf(),
        model::dao_as_member(s, caller, dao, info).0.wf(),
        (DaoView { dao_admin: admin, ..s }).wf(),
{
}

/// An admitted member is found under its address and under the id it was
/// given, which is the next id before admission; the next id moves on by one.
pub proof fn lemma_added_member_is_found(
    s: DaoView,
    caller: AccountId,
    dao: AccountId,
    member: AccountId,
    name: Seq<char>,
    now: u64,
)
    requires
        model::add_member_fits(s, caller, member),
        model::add_member(s, caller, dao, member, name, now).1 is Ok,
    ensures
        ({
            let t = model::add_member(s, caller, dao, member, name, now).0;
            &&& t.is_member(member)
            &&& model::member_info(t, member) == Ok::<_, Error>(model::new_member(name, s.next_member_id, now))
            &&& t.member_by_id[s.next_member_id] == model::new_member(name, s.next_member_id, now)
            &&& t.next_member_id == s.next_member_id + 1
        }),
{
}

/// A removed member is no longer found, neither under its address nor
/// under its id (in a consistent registry).
pub proof fn lemma_deleted_member_is_gone(s: DaoView, caller: AccountId, member: AccountId)
    requires
        model::delete_member(s, caller, member).1 is Ok,
    ensures
        ({
            let t = model::delete_member(s, caller, member).0;
            &&& !t.is_member(member)
            &&& model::member_info(t, member) == Err::<crate::types::MemberInfoView, Error>(Error::MemberDoesNotExist)
            &&& !t.member_by_id.contains_key(s.members[member].member_id)
        }),
{
}

/// A terminated member stays registered, with status `Terminated` and its
/// end time stamped; its other data are kept.
pub proof fn lemma_terminated_member_is_marked(
    s: DaoView,
    caller: AccountId,
    dao: AccountId,
    member: AccountId,
    now: u64,
)
    requires
        model::terminate_member(s, caller, dao, member, now).1 is Ok,
    ensures
        ({
            let t = model::terminate_member(s, caller, dao, member, now).0;
            let m = t.members[member];
            &&& t.is_member(member)
            &&& m.member_status == MemberStatus::Terminated
            &&& m.end_time == Some(crate::text::decimal(now as nat))
            &&& m.name == s.members[member].name
            &&& m.member_id == s.members[member].member_id
            &&& m.member_role == s.members[member].member_role
            &&& m.start_time == s.members[member].start_time
            &&& t.member_by_id[m.member_id] == m
        }),
{
}

/// A role change is seen under the member's address and id.
pub proof fn lemma_updated_role_is_found(
    s: DaoView,
    caller: AccountId,
    dao: AccountId,
    member: AccountId,
    role: MemberRole,
)
    requires
        model::update_member_role(s, caller, dao, member, role).1 is Ok,
    ensures
        ({
            let t = model::update_member_role(s, caller, dao, member, role).0;
            &&& t.members[member].member_role == role
            &&& t.member_by_id[s.members[member].member_id].member_role == role
        }),
{
}

/// An opened project is found under the next project id it was given, and
/// the next id moves on by one.
pub proof fn lemma_created_project_is_found(
    s: DaoView,
    caller: AccountId,
    now: u64,
    name: Seq<char>,
    dao: AccountId,
    assigned: AccountId,
)
    requires
        model::create_project_fits(s, caller, assigned, now),
        model::create_project(s, caller, now, name, dao, assigned).1 is Ok,
    ensures
        ({
            let t = model::create_project(s, caller, now, name, dao, assigned).0;
            &&& model::project_info(t, s.next_project_id) == Ok::<_, Error>(
                model::new_project(s.next_project_id, name, caller, assigned, now),
            )
            &&& t.next_project_id == s.next_project_id + 1
        }),
{
}

/// A closed project, or task, is completed and stamped with its end time.
pub proof fn lemma_closed_is_completed(s: DaoView, caller: AccountId, now: u64, project_id: u16, task_id: u16)
    requires
        s.wf(),
    ensures
        model::close_project(s, caller, now, project_id).1 is Ok ==> {
            let t = model::close_project(s, caller, now, project_id).0;
            &&& t.projects[project_id].project_status == ProjectStatus::Completed
            &&& t.projects[project_id].end_time == Some(crate::text::decimal(now as nat))
        },
        model::close_task(s, caller, now, task_id).1 is Ok ==> {
            let t = model::close_task(s, caller, now, task_id).0;
            &&& t.tasks[task_id].task_status == TaskStatus::Completed
            &&& t.tasks[task_id].end_time == Some(crate::text::decimal(now as nat))
        },
{
}

/// An opened task is found under the next task id it was given, and its
/// project lists that id last (in a consistent registry).
pub proof fn lemma_created_task_is_found(
    s: DaoView,
    caller: AccountId,
    now: u64,
    name: Seq<char>,
    dao: AccountId,
    assigned: AccountId,
    task_type: TaskType,
    project_id: u16,
)
    requires
        s.wf(),
        model::create_task_fits(s, caller, assigned, project_id),
        model::create_task(s, caller, now, name, dao, assigned, task_type, project_id).1 is Ok,
    ensures
        ({
            let t = model::create_task(s, caller, now, name, dao, assigned, task_type, project_id).0;
            &&& model::task_info(t, s.next_task_id) == Ok::<_, Error>(
                model::new_task(s.next_task_id, project_id, name, caller, assigned, task_type, now),
            )
            &&& t.projects[project_id].task_list == s.projects[project_id].task_list.push(s.next_task_id)
            &&& t.next_task_id == s.next_task_id + 1
        }),
{
}

/// Time logged on a task adds up.
pub proof fn lemma_logged_time_adds_up(s: DaoView, caller: AccountId, task_id: u16, time: u16)
    requires
        model::time_log_fits(s, caller, task_id, time),
        model::time_log(s, caller, task_id, time).1 is Ok,
    ensures
        ({
            let t = model::time_log(s, caller, task_id, time).0;
            let before = match s.tasks[task_id].total_time_logged_in {
                Some(d) => d as int,
                None => 0,
            };
            t.tasks[task_id].total_time_logged_in == Some((before + time) as u16)
        }),
{
}

/// One stake per account: an account that has staked is refused a second
/// stake.
pub proof fn lemma_one_stake_per_account(s: DaoView, caller: AccountId, contract: AccountId, now: u64, amount: u128)
    requires
        s.stakes.contains_key(caller),
    ensures
        model::add_stake(s, caller, contract, now, amount) == (s, Err::<(), Error>(Error::AlreadyStaked)),
{
}

/// A deposited stake is found with its deposit time; withdrawing it early
/// hands back that stake and forgets it.
pub proof fn lemma_stake_round_trip(
    s: DaoView,
    caller: AccountId,
    contract: AccountId,
    now: u64,
    amount: u128,
    balance: u128,
    delivered: bool,
)
    requires
        model::add_stake_fits(s, caller, contract, amount),
        model::add_stake(s, caller, contract, now, amount).1 is Ok,
    ensures
        ({
            let t = model::add_stake(s, caller, contract, now, amount).0;
            let st = crate::types::StakeView {
                staked_amount: amount,
                deposit_time: crate::text::decimal(now as nat),
                release_time: None,
            };
            &&& model::stake_info(t, caller) == Ok::<_, Error>(st)
            &&& t.stake_times[caller] == now
            &&& model::early_withdraw(t, caller, balance, delivered).1 is Ok ==> {
                &&& model::early_withdraw(t, caller, balance, delivered).1 == Ok::<_, Error>(st)
                &&& model::stake_info(model::early_withdraw(t, caller, balance, delivered).0, caller)
                    == Err::<crate::types::StakeView, Error>(Error::NotStaked)
            }
        }),
{
}

/// Redeeming takes a deposit back out: in a consistent DAO, staking and then
/// redeeming gives back the stakes and the deposit times the DAO had before;
/// the stake total, raised by the deposit's whole units, is lowered by the
/// stake's amount modulo 256.
pub proof fn lemma_redeem_removes_deposit(
    s: DaoView,
    caller: AccountId,
    contract: AccountId,
    now: u64,
    later: u64,
    amount: u128,
    balance: u128,
    delivered: bool,
)
    requires
        s.wf(),
        model::add_stake_fits(s, caller, contract, amount),
        model::add_stake(s, caller, contract, now, amount).1 is Ok,
        model::redeem_stake_fits(model::add_stake(s, caller, contract, now, amount).0, caller, later, balance),
        model::redeem_stake(model::add_stake(s, caller, contract, now, amount).0, caller, later, balance, delivered).1 is Ok,
    ensures
        ({
            let t = model::add_stake(s, caller, contract, now, amount).0;
            let u = model::redeem_stake(t, caller, later, balance, delivered).0;
            &&& u.stakes == s.stakes
            &&& u.stake_times == s.stake_times
            &&& u.total_stake == s.total_stake + model::stake_units(amount) - amount % 256
        }),
{
    let t = model::add_stake(s, caller, contract, now, amount).0;
    let u = model::redeem_stake(t, caller, later, balance, delivered).0;
    assert(u.stakes =~= s.stakes);
    assert(u.stake_times =~= s.stake_times);
}

/// No redemption before the staking period is over: while the deposit time
/// plus the staking duration is ahead, a member's redemption is refused and
/// nothing is paid or changed.
pub proof fn lemma_no_redeem_before_period(
    s: DaoView,
    caller: AccountId,
    now: u64,
    balance: u128,
    delivered: bool,
)
    requires
        s.stakes.contains_key(caller),
        s.is_member(caller),
        s.stake_times.contains_key(caller),
        now < s.stake_times[caller] + s.staking_duration,
    ensures
        model::redeem_stake(s, caller, now, balance, delivered) == (s, Err::<(), Error>(
            Error::RedeemDurationNotReached,
        )),
{
}

/// Stakes are refused to the contract's own account, and below the minimum
/// deposit.
pub proof fn lemma_deposit_rules(s: DaoView, caller: AccountId, contract: AccountId, now: u64, amount: u128)
    requires
        !s.stakes.contains_key(caller),
        s.is_member(caller),
    ensures
        caller == contract ==> model::add_stake(s, caller, contract, now, amount) == (s, Err::<(), Error>(
            Error::SelfStakingNotAllowed,
        )),
        caller != contract && amount < model::MIN_DEPOSIT_BALANCE ==> model::add_stake(
            s,
            caller,
            contract,
            now,
            amount,
        ) == (s, Err::<(), Error>(Error::DepositNotSufficient)),
{
}

/// A registered partner DAO is found; a registered token is listed.
pub proof fn lemma_registrations_are_found(
    s: DaoView,
    caller: AccountId,
    dao: AccountId,
    info: DaoInfoView,
    token_type: crate::types::TokenType,
    token: AccountId,
)
    requires
        model::dao_as_member_fits(s, caller, dao),
    ensures
        model::dao_as_member(s, caller, dao, info).1 is Ok ==> model::dao_info_with_address(
            model::dao_as_member(s, caller, dao, info).0,
            dao,
        ) == Ok::<_, Error>(info),
        model::add_dao_token(s, caller, dao, token_type, token).1 is Ok ==> model::token_list(
            model::add_dao_token(s, caller, dao, token_type, token).0,
            token,
        ) == seq![crate::types::TokenInfo { token_type, token_address: token }],
{
}

/// Ids are never reused: no operation moves the next member, project, task
/// or partner counter back.
pub proof fn lemma_counters_never_decrease(s: DaoView)
    ensures
        forall|caller: AccountId, dao: AccountId, member: AccountId, name: Seq<char>, now: u64|
            #[trigger] model::add_member(s, caller, dao, member, name, now).0.next_member_id
                >= s.next_member_id || !model::add_member_fits(s, caller, member),
        forall|caller: AccountId, member: AccountId|
            #[trigger] model::delete_member(s, caller, member).0.next_member_id == s.next_member_id,
        forall|caller: AccountId, now: u64, name: Seq<char>, dao: AccountId, assigned: AccountId|
            #[trigger] model::create_project(s, caller, now, name, dao, assigned).0.next_project_id
                >= s.next_project_id || !model::create_project_fits(s, caller, assigned, now),
        forall|caller: AccountId, now: u64, name: Seq<char>, dao: AccountId, assigned: AccountId, tt: TaskType, pid: u16|
            #[trigger] model::create_task(s, caller, now, name, dao, assigned, tt, pid).0.next_task_id
                >= s.next_task_id || !model::create_task_fits(s, caller, assigned, pid),
        forall|caller: AccountId, dao: AccountId, info: DaoInfoView|
            #[trigger] model::dao_as_member(s, caller, dao, info).0.next_dao_id >= s.next_dao_id
                || !model::dao_as_member_fits(s, caller, dao),
{
}

/// In a consistent registry every member appears, with its current record,
/// in the member list.
pub proof fn lemma_every_member_is_listed(s: DaoView, member: AccountId)
    requires
        s.wf(),
        s.is_member(member),
    ensures
        crate::table::listed(s.member_by_id, s.next_member_id as nat).contains(s.members[member]),
{
    crate::table::lemma_listed_has(s.member_by_id, s.next_member_id as nat, s.members[member].member_id);
}

} // verus!
