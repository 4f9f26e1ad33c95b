//! What each successful operation does, field by field: what it writes, in
//! terms of its inputs, and which records it leaves as they were.
use vstd::prelude::*;
use crate::account::AccountId;
use crate::events::DaoEventView;
use crate::model;
use crate::model::DaoView;
use crate::table::{lemma_listed_full, listed};
use crate::text::decimal;
use crate::types::{
    DaoInfoView, MemberRole, MemberStatus, ProjectStatus, ReviewOpinion, TaskStatus, TaskType,
    TokenType,
};

verus! {

/// Two maps agree everywhere but at `k`.
pub open spec fn same_except<K, V>(m1: Map<K, V>, m2: Map<K, V>, k: K) -> bool {
    forall|q: K|
        q != k ==> (#[trigger] m1.contains_key(q) == m2.contains_key(q)) && (m1.contains_key(q)
            ==> m1[q] == m2[q])
}

/// A created task is stored under the id it was given, in the project
/// asked for, with the name, type, creator and assignee asked for, to do,
/// started now, with no end, no opinion and no time logged; the project
/// lists it last; no other task changes.
pub proof fn lemma_create_task_effect(
    s: DaoView,
    caller: AccountId,
    now: u64,
    name: Seq<char>,
    dao: AccountId,
    assigned: AccountId,
    task_type: TaskType,
    project_id: u16,
)
    requires
        s.wf(),
        model::create_task(s, caller, now, name, dao, assigned, task_type, project_id).1 is Ok,
    ensures
        ({
            let t = model::create_task(s, caller, now, name, dao, assigned, task_type, project_id).0;
            let id = s.next_task_id;
            let task = t.tasks[id];
            &&& !s.tasks.contains_key(id)
            &&& t.tasks.contains_key(id)
            &&& task.task_id == id
            &&& task.project_id == project_id
            &&& task.name == name
            &&& task.creator == caller
            &&& task.assigned_to == assigned
            &&& task.task_type == task_type
            &&& task.task_status == TaskStatus::ToDO
            &&& task.start_time == decimal(now as nat)
            &&& task.end_time is None
            &&& task.review is None
            &&& task.total_time_logged_in is None
            &&& t.projects[project_id].task_list == s.projects[project_id].task_list.push(id)
            &&& t.projects[project_id].name == s.projects[project_id].name
            &&& same_except(t.tasks, s.tasks, id)
            &&& same_except(t.projects, s.projects, project_id)
            &&& t.members == s.members
            &&& t.events == s.events.push(
                DaoEventView::TaskCreated {
                    task_id: id,
                    project_id,
                    creator: caller,
                    assigned_to: assigned,
                    task_type,
                    start_time: decimal(now as nat),
                },
            )
        }),
{
    let t = model::create_task(s, caller, now, name, dao, assigned, task_type, project_id).0;
    assert(!s.tasks.contains_key(s.next_task_id));
    assert(same_except(t.tasks, s.tasks, s.next_task_id));
}

/// A task's status becomes the status asked for, whatever it is; its end
/// time is stamped now exactly when that status is `Completed`, and kept
/// otherwise; nothing else of it, and no other task, changes.
pub proof fn lemma_update_task_status_effect(
    s: DaoView,
    caller: AccountId,
    now: u64,
    task_id: u16,
    status: TaskStatus,
)
    requires
        model::update_task_status(s, caller, now, task_id, status).1 is Ok,
    ensures
        ({
            let t = model::update_task_status(s, caller, now, task_id, status).0;
            let before = s.tasks[task_id];
            let after = t.tasks[task_id];
            &&& s.tasks.contains_key(task_id) && t.tasks.contains_key(task_id)
            &&& before.creator == caller && before.assigned_to == caller
            &&& after.task_status == status
            &&& status == TaskStatus::Completed ==> after.end_time == Some(decimal(now as nat))
            &&& status != TaskStatus::Completed ==> after.end_time == before.end_time
            &&& after.task_id == before.task_id && after.project_id == before.project_id
            &&& after.name == before.name && after.creator == before.creator
            &&& after.assigned_to == before.assigned_to && after.task_type == before.task_type
            &&& after.start_time == before.start_time && after.review == before.review
            &&& after.total_time_logged_in == before.total_time_logged_in
            &&& same_except(t.tasks, s.tasks, task_id)
            &&& t.projects == s.projects && t.members == s.members && t.events == s.events
        }),
{
}

/// Closing a task completes it and stamps its end time now; nothing else
/// of it, and no other task, changes.
pub proof fn lemma_close_task_effect(s: DaoView, caller: AccountId, now: u64, task_id: u16)
    requires
        model::close_task(s, caller, now, task_id).1 is Ok,
    ensures
        ({
            let t = model::close_task(s, caller, now, task_id).0;
            let before = s.tasks[task_id];
            let after = t.tasks[task_id];
            &&& before.creator == caller
            &&& after.task_status == TaskStatus::Completed
            &&& after.end_time == Some(decimal(now as nat))
            &&& after.name == before.name && after.task_type == before.task_type
            &&& after.assigned_to == before.assigned_to && after.review == before.review
            &&& after.total_time_logged_in == before.total_time_logged_in
            &&& same_except(t.tasks, s.tasks, task_id)
            &&& t.projects == s.projects
        }),
{
}

/// Logging time adds it to the task's total (counting from zero); nothing
/// else of the task, and no other task, changes.
pub proof fn lemma_time_log_effect(s: DaoView, caller: AccountId, task_id: u16, time: u16)
    requires
        model::time_log_fits(s, caller, task_id, time),
        model::time_log(s, caller, task_id, time).1 is Ok,
    ensures
        ({
            let t = model::time_log(s, caller, task_id, time).0;
            let before = s.tasks[task_id];
            let after = t.tasks[task_id];
            let logged = match before.total_time_logged_in {
                Some(d) => d as int,
                None => 0,
            };
            &&& before.assigned_to == caller
            &&& after.total_time_logged_in == Some((logged + time) as u16)
            &&& logged + time <= u16::MAX
            &&& after.task_status == before.task_status && after.end_time == before.end_time
            &&& after.name == before.name && after.review == before.review
            &&& same_except(t.tasks, s.tasks, task_id)
        }),
{
}

/// An opinion is recorded on the task as given by the member named, with
/// the description and opinion given; nothing else of the task, and no other
/// task, changes.
pub proof fn lemma_create_review_effect(
    s: DaoView,
    caller: AccountId,
    reviewer: AccountId,
    task_id: u16,
    project_id: u16,
    meta: Seq<u8>,
    opinion: ReviewOpinion,
)
    requires
        model::create_review(s, caller, reviewer, task_id, project_id, meta, opinion).1 is Ok,
    ensures
        ({
            let t = model::create_review(s, caller, reviewer, task_id, project_id, meta, opinion).0;
            let before = s.tasks[task_id];
            let after = t.tasks[task_id];
            &&& s.is_member(caller) && s.is_member(reviewer)
            &&& after.review is Some
            &&& after.review->0.records.who == reviewer
            &&& after.review->0.records.meta == meta
            &&& after.review->0.records.option == opinion
            &&& after.task_status == before.task_status && after.end_time == before.end_time
            &&& after.name == before.name && after.creator == before.creator
            &&& after.assigned_to == before.assigned_to
            &&& same_except(t.tasks, s.tasks, task_id)
            &&& t.projects == s.projects && t.events == s.events
        }),
{
}

/// A created project is stored under the id it was given, with the name,
/// creator and assignee asked for, active, started now, with no end and no
/// tasks, and a first sprint of seven days from now; no other project changes.
pub proof fn lemma_create_project_effect(
    s: DaoView,
    caller: AccountId,
    now: u64,
    name: Seq<char>,
    dao: AccountId,
    assigned: AccountId,
)
    requires
        s.wf(),
        model::create_project(s, caller, now, name, dao, assigned).1 is Ok,
    ensures
        ({
            let t = model::create_project(s, caller, now, name, dao, assigned).0;
            let id = s.next_project_id;
            let p = t.projects[id];
            &&& !s.projects.contains_key(id) && t.projects.contains_key(id)
            &&& p.project_id == id && p.name == name && p.creator == caller
            &&& p.assigned_to == assigned && p.project_status == ProjectStatus::Active
            &&& p.start_time == decimal(now as nat) && p.end_time is None
            &&& p.task_list.len() == 0
            &&& p.sprint.project_id == id && p.sprint.start_date == decimal(now as nat)
            &&& p.sprint.end_date == decimal((now + 7 * 86400) as nat) && p.sprint.action == 0
            &&& same_except(t.projects, s.projects, id)
            &&& t.tasks == s.tasks && t.members == s.members
            &&& t.events == s.events.push(
                DaoEventView::ProjectCreated {
                    dao_address: dao,
                    creator: caller,
                    project_id: id,
                    assigned_to: assigned,
                    start_time: decimal(now as nat),
                },
            )
        }),
{
    assert(!s.projects.contains_key(s.next_project_id));
}

/// A project's status becomes the status asked for; its end time is stamped
/// now exactly when that status is `Completed`, and kept otherwise; nothing
/// else of it, and no other project, changes (in a consistent registry).
pub proof fn lemma_update_project_status_effect(
    s: DaoView,
    caller: AccountId,
    now: u64,
    id: u16,
    status: ProjectStatus,
)
    requires
        s.wf(),
        model::update_project_status(s, caller, now, id, status).1 is Ok,
    ensures
        ({
            let t = model::update_project_status(s, caller, now, id, status).0;
            let before = s.projects[id];
            let after = t.projects[id];
            &&& before.creator == caller
            &&& after.project_status == status
            &&& status == ProjectStatus::Completed ==> after.end_time == Some(decimal(now as nat))
            &&& status != ProjectStatus::Completed ==> after.end_time == before.end_time
            &&& after.name == before.name && after.assigned_to == before.assigned_to
            &&& after.task_list == before.task_list && after.sprint == before.sprint
            &&& same_except(t.projects, s.projects, id)
            &&& t.tasks == s.tasks
            &&& t.events == s.events.push(DaoEventView::ProjectStatusUpdated { project_id: id, status })
        }),
{
}

/// Closing a project completes it and stamps its end time now; nothing
/// else of it, and no other project, changes (in a consistent registry).
pub proof fn lemma_close_project_effect(s: DaoView, caller: AccountId, now: u64, id: u16)
    requires
        s.wf(),
        model::close_project(s, caller, now, id).1 is Ok,
    ensures
        ({
            let t = model::close_project(s, caller, now, id).0;
            let before = s.projects[id];
            let after = t.projects[id];
            &&& before.creator == caller
            &&& after.project_status == ProjectStatus::Completed
            &&& after.end_time == Some(decimal(now as nat))
            &&& after.name == before.name && after.task_list == before.task_list
            &&& after.sprint == before.sprint
            &&& same_except(t.projects, s.projects, id)
            &&& t.events == s.events.push(
                DaoEventView::ProjectCompleted {
                    project_id: id,
                    start_time: before.start_time,
                    end_time: Some(decimal(now as nat)),
                },
            )
        }),
{
}

/// A new sprint has the dates given and no action yet; nothing else of the
/// project, and no other project, changes.
pub proof fn lemma_create_sprint_effect(s: DaoView, id: u16, start: Seq<char>, end: Seq<char>)
    requires
        model::create_sprint(s, id, start, end).1 is Ok,
    ensures
        ({
            let t = model::create_sprint(s, id, start, end).0;
            let before = s.projects[id];
            let after = t.projects[id];
            &&& after.sprint.project_id == id && after.sprint.start_date == start
            &&& after.sprint.end_date == end && after.sprint.action == 0
            &&& after.name == before.name && after.project_status == before.project_status
            &&& after.end_time == before.end_time && after.task_list == before.task_list
            &&& same_except(t.projects, s.projects, id)
            &&& t.events == s.events.push(
                DaoEventView::SprintAdded { project_id: id, start_date: start, end_date: end },
            )
        }),
{
}

/// An admitted member is stored under its address and its new id, with the
/// name given, active, with no role, efficiency or lists, started now; no
/// other member changes.
pub proof fn lemma_add_member_effect(
    s: DaoView,
    caller: AccountId,
    dao: AccountId,
    member: AccountId,
    name: Seq<char>,
    now: u64,
)
    requires
        model::add_member(s, caller, dao, member, name, now).1 is Ok,
    ensures
        ({
            let t = model::add_member(s, caller, dao, member, name, now).0;
            let m = t.members[member];
            &&& caller == s.dao_admin && !s.members.contains_key(member)
            &&& t.members.contains_key(member)
            &&& m.name == name && m.member_id == s.next_member_id
            &&& m.member_status == MemberStatus::Active && m.member_role == MemberRole::Unset
            &&& m.member_efficiency == 0 && m.start_time == decimal(now as nat)
            &&& m.end_time is None && m.task_list.len() == 0 && m.project_list.len() == 0
            &&& t.member_by_id[s.next_member_id] == m
            &&& same_except(t.members, s.members, member)
            &&& same_except(t.member_by_id, s.member_by_id, s.next_member_id)
            &&& t.events == s.events.push(
                DaoEventView::MemberAdded { dao_address: dao, member, member_id: t.next_member_id },
            )
        }),
{
}

/// Removing a member removes it under its address and its id, and nothing
/// else.
pub proof fn lemma_delete_member_effect(s: DaoView, caller: AccountId, member: AccountId)
    requires
        model::delete_member(s, caller, member).1 is Ok,
    ensures
        ({
            let t = model::delete_member(s, caller, member).0;
            let id = s.members[member].member_id;
            &&& !t.members.contains_key(member) && !t.member_by_id.contains_key(id)
            &&& same_except(t.members, s.members, member)
            &&& same_except(t.member_by_id, s.member_by_id, id)
        }),
{
}

/// Terminating and re-roling a member change only its status and end time,
/// or only its role, under its address and its id.
pub proof fn lemma_member_update_effects(
    s: DaoView,
    caller: AccountId,
    dao: AccountId,
    member: AccountId,
    now: u64,
    role: MemberRole,
)
    ensures
        model::terminate_member(s, caller, dao, member, now).1 is Ok ==> {
            let t = model::terminate_member(s, caller, dao, member, now).0;
            let before = s.members[member];
            let after = t.members[member];
            &&& after.member_status == MemberStatus::Terminated
            &&& after.end_time == Some(decimal(now as nat))
            &&& after.name == before.name && after.member_id == before.member_id
            &&& after.member_role == before.member_role && after.start_time == before.start_time
            &&& t.member_by_id[before.member_id] == after
            &&& same_except(t.members, s.members, member)
            &&& same_except(t.member_by_id, s.member_by_id, before.member_id)
            &&& t.events == s.events.push(
                DaoEventView::MemberTerminated {
                    dao_address: dao,
                    member_address: member,
                    start_time: before.start_time,
                    end_time: Some(decimal(now as nat)),
                },
            )
        },
        model::update_member_role(s, caller, dao, member, role).1 is Ok ==> {
            let t = model::update_member_role(s, caller, dao, member, role).0;
            let before = s.members[member];
            let after = t.members[member];
            &&& after.member_role == role
            &&& after.member_status == before.member_status && after.end_time == before.end_time
            &&& after.name == before.name && after.member_id == before.member_id
            &&& t.member_by_id[before.member_id] == after
            &&& same_except(t.members, s.members, member)
            &&& same_except(t.member_by_id, s.member_by_id, before.member_id)
            &&& t.events == s.events.push(
                DaoEventView::MemberRoleUpdated { dao_address: dao, member_address: member, new_role: role },
            )
        },
{
}

/// Registering a token stores the type and address given under that address
/// and keeps every other registered token.
pub proof fn lemma_add_dao_token_effect(
    s: DaoView,
    caller: AccountId,
    dao: AccountId,
    token_type: TokenType,
    token: AccountId,
)
    requires
        model::add_dao_token(s, caller, dao, token_type, token).1 is Ok,
    ensures
        ({
            let t = model::add_dao_token(s, caller, dao, token_type, token).0;
            &&& t.tokens.contains_key(token)
            &&& t.tokens[token].token_type == token_type
            &&& t.tokens[token].token_address == token
            &&& same_except(t.tokens, s.tokens, token)
            &&& t.daos == s.daos && t.members == s.members
            &&& t.events == s.events.push(
                DaoEventView::GovernanceTokenAdded { dao_address: dao, token_address: token },
            )
        }),
{
}

/// A token registered stays registered when another one is registered, so
/// it can still be listed and distributed.
pub proof fn lemma_tokens_accumulate(
    s: DaoView,
    admin: AccountId,
    dao: AccountId,
    type_a: TokenType,
    a: AccountId,
    type_b: TokenType,
    b: AccountId,
    to: AccountId,
    amount: u128,
)
    requires
        admin == s.dao_admin,
        a != b,
    ensures
        ({
            let t1 = model::add_dao_token(s, admin, dao, type_a, a).0;
            let t2 = model::add_dao_token(t1, admin, dao, type_b, b).0;
            &&& model::token_list(t2, a) == seq![crate::types::TokenInfo { token_type: type_a, token_address: a }]
            &&& model::distribution_refusal(t2, admin, a) is None
        }),
{
    let t1 = model::add_dao_token(s, admin, dao, type_a, a).0;
    lemma_add_dao_token_effect(s, admin, dao, type_a, a);
    lemma_add_dao_token_effect(t1, admin, dao, type_b, b);
}

/// Registering a partner DAO stores the description given under its address
/// and keeps every other registered partner.
pub proof fn lemma_dao_as_member_effect(s: DaoView, caller: AccountId, dao: AccountId, info: DaoInfoView)
    requires
        model::dao_as_member_fits(s, caller, dao),
        model::dao_as_member(s, caller, dao, info).1 is Ok,
    ensures
        ({
            let t = model::dao_as_member(s, caller, dao, info).0;
            &&& !s.daos.contains_key(dao)
            &&& t.daos.contains_key(dao) && t.daos[dao] == info
            &&& same_except(t.daos, s.daos, dao)
            &&& t.next_dao_id == s.next_dao_id + 1
            &&& t.tokens == s.tokens && t.members == s.members && t.events == s.events
        }),
{
}

/// A partner DAO registered stays registered when another one is
/// registered.
pub proof fn lemma_partners_accumulate(
    s: DaoView,
    admin: AccountId,
    x: AccountId,
    info_x: DaoInfoView,
    y: AccountId,
    info_y: DaoInfoView,
)
    requires
        admin == s.dao_admin,
        x != y,
        !s.daos.contains_key(x),
        !s.daos.contains_key(y),
        s.next_dao_id + 2 <= u16::MAX,
    ensures
        ({
            let t1 = model::dao_as_member(s, admin, x, info_x).0;
            let t2 = model::dao_as_member(t1, admin, y, info_y).0;
            &&& model::dao_info_with_address(t2, x) == Ok::<_, crate::types::Error>(info_x)
            &&& model::dao_info_with_address(t2, y) == Ok::<_, crate::types::Error>(info_y)
        }),
{
    let t1 = model::dao_as_member(s, admin, x, info_x).0;
    lemma_dao_as_member_effect(s, admin, x, info_x);
    assert(!t1.daos.contains_key(y));
    lemma_dao_as_member_effect(t1, admin, y, info_y);
}

/// A deposit stores a stake of the amount given, deposited now and not
/// released, with its deposit time; the stake total grows by the deposit's
/// whole units; no other stake changes.
pub proof fn lemma_add_stake_effect(s: DaoView, caller: AccountId, contract: AccountId, now: u64, amount: u128)
    requires
        model::add_stake_fits(s, caller, contract, amount),
        model::add_stake(s, caller, contract, now, amount).1 is Ok,
    ensures
        ({
            let t = model::add_stake(s, caller, contract, now, amount).0;
            &&& !s.stakes.contains_key(caller) && s.is_member(caller) && caller != contract
            &&& amount >= model::MIN_DEPOSIT_BALANCE
            &&& t.stakes.contains_key(caller)
            &&& t.stakes[caller].staked_amount == amount
            &&& t.stakes[caller].deposit_time == decimal(now as nat)
            &&& t.stakes[caller].release_time is None
            &&& t.stake_times[caller] == now
            &&& t.total_stake == s.total_stake + (amount / 1_000_000_000_000) % 256
            &&& same_except(t.stakes, s.stakes, caller)
            &&& t.events == s.events.push(
                DaoEventView::DepositSuccessful { staker: caller, stake: t.stakes[caller] },
            )
        }),
{
}

/// A redemption pays the caller's stake and forgets it, after its staking
/// period; the stake total drops by the amount modulo 256; no other stake
/// changes.
pub proof fn lemma_redeem_stake_effect(
    s: DaoView,
    caller: AccountId,
    now: u64,
    balance: u128,
    delivered: bool,
)
    requires
        model::redeem_stake_fits(s, caller, now, balance),
        model::redeem_stake(s, caller, now, balance, delivered).1 is Ok,
    ensures
        ({
            let t = model::redeem_stake(s, caller, now, balance, delivered).0;
            &&& s.stakes.contains_key(caller) && s.is_member(caller) && delivered
            &&& balance >= s.stakes[caller].staked_amount
            &&& !(s.stake_times.contains_key(caller) && now < s.stake_times[caller] + s.staking_duration)
            &&& !t.stakes.contains_key(caller)
            &&& t.total_stake == s.total_stake - s.stakes[caller].staked_amount % 256
            &&& same_except(t.stakes, s.stakes, caller)
            &&& t.events.len() == s.events.len() + 1
            &&& t.events.last() matches DaoEventView::RedeemSuccessful { staker, stake }
            &&& staker == caller && stake.staked_amount == s.stakes[caller].staked_amount
            &&& stake.deposit_time == s.stakes[caller].deposit_time
            &&& stake.release_time == Some(decimal(now as nat))
        }),
{
}

/// Setting the staking data sets the stake total and the duration given,
/// and nothing else.
pub proof fn lemma_set_stake_data_effect(s: DaoView, caller: AccountId, rate: u8, duration: u64)
    requires
        model::set_stake_data(s, caller, rate, duration).1 is Ok,
    ensures
        ({
            let t = model::set_stake_data(s, caller, rate, duration).0;
            &&& caller == s.dao_admin
            &&& t.total_stake == rate && t.staking_duration == duration
            &&& t.stakes == s.stakes && t.members == s.members && t.tokens == s.tokens
        }),
{
}

/// When each operation succeeds, in a consistent registry: management calls
/// exactly when they come from the admin (and the member, or partner, is
/// new, or known, as the call needs); project and task calls exactly when
/// the callers and assignees are members, the records named exist, and the
/// caller is the creator, assignee or member the call asks for.
pub proof fn lemma_when_operations_succeed(
    s: DaoView,
    caller: AccountId,
    other: AccountId,
    dao: AccountId,
    now: u64,
    name: Seq<char>,
    id: u16,
    task_id: u16,
    task_type: TaskType,
    task_status: TaskStatus,
    project_status: ProjectStatus,
    role: MemberRole,
    meta: Seq<u8>,
    opinion: ReviewOpinion,
    time: u16,
    token_type: TokenType,
    info: DaoInfoView,
)
    requires
        s.wf(),
    ensures
        model::add_dao_token(s, caller, dao, token_type, other).1 is Ok <==> caller == s.dao_admin,
        model::dao_as_member(s, caller, other, info).1 is Ok <==> caller == s.dao_admin
            && !s.daos.contains_key(other),
        model::add_member(s, caller, dao, other, name, now).1 is Ok <==> caller == s.dao_admin
            && !s.members.contains_key(other),
        model::delete_member(s, caller, other).1 is Ok <==> caller == s.dao_admin
            && s.members.contains_key(other),
        model::terminate_member(s, caller, dao, other, now).1 is Ok <==> caller == s.dao_admin
            && s.members.contains_key(other),
        model::update_member_role(s, caller, dao, other, role).1 is Ok <==> caller == s.dao_admin
            && s.members.contains_key(other),
        model::create_project(s, caller, now, name, dao, other).1 is Ok <==> s.members.contains_key(
            caller,
        ) && s.members.contains_key(other),
        model::update_project_status(s, caller, now, id, project_status).1 is Ok
            <==> s.projects.contains_key(id) && s.projects[id].creator == caller,
        model::close_project(s, caller, now, id).1 is Ok <==> s.projects.contains_key(id)
            && s.projects[id].creator == caller,
        model::create_sprint(s, id, name, name).1 is Ok <==> s.projects.contains_key(id),
        model::create_task(s, caller, now, name, dao, other, task_type, id).1 is Ok
            <==> s.members.contains_key(caller) && s.members.contains_key(other)
            && s.projects.contains_key(id),
        model::create_review(s, caller, other, task_id, id, meta, opinion).1 is Ok
            <==> s.members.contains_key(caller) && s.members.contains_key(other)
            && s.projects.contains_key(id) && s.tasks.contains_key(task_id),
        model::update_task_status(s, caller, now, task_id, task_status).1 is Ok
            <==> s.members.contains_key(caller) && s.tasks.contains_key(task_id)
            && s.tasks[task_id].creator == caller && s.tasks[task_id].assigned_to == caller,
        model::close_task(s, caller, now, task_id).1 is Ok <==> s.tasks.contains_key(task_id)
            && s.tasks[task_id].creator == caller,
        model::time_log(s, caller, task_id, time).1 is Ok <==> s.tasks.contains_key(task_id)
            && s.tasks[task_id].assigned_to == caller,
        model::set_stake_data(s, caller, 0, now).1 is Ok <==> caller == s.dao_admin,
{
    if s.members.contains_key(other) {
        assert(s.member_by_id.contains_key(s.members[other].member_id));
    }
    if s.tasks.contains_key(task_id) {
        assert(s.projects.contains_key(s.tasks[task_id].project_id));
    }
    if s.projects.contains_key(id) {
        assert(s.projects[id].project_id == id);
    }
}

/// When a deposit and a redemption succeed: a deposit exactly when the
/// caller is a member with no stake yet, other than the contract, and brings
/// at least the minimum; a redemption exactly when the caller is a member
/// with a stake whose staking period is over, the contract holds the stake's
/// amount and the transfer is delivered.
pub proof fn lemma_when_stakes_succeed(
    s: DaoView,
    caller: AccountId,
    contract: AccountId,
    now: u64,
    amount: u128,
    balance: u128,
    delivered: bool,
)
    ensures
        model::add_stake(s, caller, contract, now, amount).1 is Ok <==> !s.stakes.contains_key(caller)
            && s.members.contains_key(caller) && caller != contract
            && amount >= model::MIN_DEPOSIT_BALANCE,
        model::redeem_stake(s, caller, now, balance, delivered).1 is Ok <==> s.stakes.contains_key(
            caller,
        ) && s.members.contains_key(caller) && !(s.stake_times.contains_key(caller) && now
            < s.stake_times[caller] + s.staking_duration) && balance >= s.stakes[caller].staked_amount
            && delivered,
{
}

/// In a consistent registry the project list and the task list are
/// complete and in id order: they hold one entry per id handed out so far,
/// the record of project, or task, `i` at position `i`.
pub proof fn lemma_lists_are_complete(s: DaoView)
    requires
        s.wf(),
    ensures
        listed(s.projects, s.next_project_id as nat).len() == s.next_project_id,
        forall|i: int|
            0 <= i < s.next_project_id ==> #[trigger] listed(s.projects, s.next_project_id as nat)[i]
                == s.projects[i as u16],
        listed(s.tasks, s.next_task_id as nat).len() == s.next_task_id,
        forall|i: int|
            0 <= i < s.next_task_id ==> #[trigger] listed(s.tasks, s.next_task_id as nat)[i]
                == s.tasks[i as u16],
{
    lemma_listed_full(s.projects, s.next_project_id as nat);
    lemma_listed_full(s.tasks, s.next_task_id as nat);
}

/// A token distribution goes through exactly when the admin asks for a
/// registered token and the token contract delivers; it changes no record,
/// and announces the transfer of the amount to the receiver only when asked
/// to.
pub proof fn lemma_distribution_effect(
    s: DaoView,
    caller: AccountId,
    token: AccountId,
    to: AccountId,
    amount: u128,
    delivered: bool,
    announce: bool,
)
    ensures
        ({
            let (t, r) = model::distribute(s, caller, token, to, amount, delivered, announce);
            &&& r is Ok <==> caller == s.dao_admin && s.tokens.contains_key(token) && delivered
            &&& caller != s.dao_admin ==> r == Err::<(), crate::types::Error>(
                crate::types::Error::ThisFunctionCanBeCalledFromDaoManager,
            )
            &&& caller == s.dao_admin && !s.tokens.contains_key(token) ==> r == Err::<
                (),
                crate::types::Error,
            >(crate::types::Error::TheTokenDoesNotExist)
            &&& caller == s.dao_admin && s.tokens.contains_key(token) && !delivered ==> r == Err::<
                (),
                crate::types::Error,
            >(crate::types::Error::DistributionIsFailure)
            &&& t.tokens == s.tokens && t.members == s.members && t.stakes == s.stakes
            &&& (r is Ok && announce) ==> t.events == s.events.push(
                DaoEventView::Transferred { from: None, to, value: amount },
            )
            &&& !(r is Ok && announce) ==> t.events == s.events
        }),
{
}

} // verus!
