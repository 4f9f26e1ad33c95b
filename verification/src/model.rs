//! The mathematical model of the DAO: its state as maps and sequences, and
//! each operation as a function from a state (and the operation's inputs) to
//! the next state and the operation's result.
use vstd::prelude::*;
use crate::account::AccountId;
use crate::events::DaoEventView;
use crate::ownership::{fixed_display, ownership_bits};
use crate::table::listed;
use crate::text::decimal;
use crate::types::{
    DaoInfoView, Error, MemberInfoView, MemberRole, MemberStatus, ProjectInfoView, ProjectStatus,
    ReviewOpinion, ReviewRecordView, ReviewStatusView, SprintView, StakeView, TaskInfoView,
    TaskStatus, TaskType, TokenInfo, TokenType,
};

verus! {

/// Seconds in a day; a new project's first sprint lasts seven of them.
pub const SECONDS_PER_DAY: u64 = 86400;

/// Smallest unit count of a stake that adds one to the DAO's stake total.
pub const STAKE_UNIT: u128 = 1_000_000_000_000;

/// Smallest deposit accepted as a stake.
pub const MIN_DEPOSIT_BALANCE: u128 = 1_000_000_000;

/// The state of a DAO.
#[verifier::ext_equal]
pub struct DaoView {
    pub dao_admin: AccountId,
    pub dao_id: u8,
    pub dao_info: DaoInfoView,
    /// token address => token
    pub tokens: Map<AccountId, TokenInfo>,
    pub next_member_id: u16,
    /// member address => member
    pub members: Map<AccountId, MemberInfoView>,
    /// member id => member
    pub member_by_id: Map<u16, MemberInfoView>,
    /// project id => project
    pub projects: Map<u16, ProjectInfoView>,
    pub next_project_id: u16,
    /// task id => task
    pub tasks: Map<u16, TaskInfoView>,
    pub next_task_id: u16,
    /// staker => stake
    pub stakes: Map<AccountId, StakeView>,
    /// staker => block time of the deposit
    pub stake_times: Map<AccountId, u64>,
    pub total_stake: u8,
    pub staking_duration: u64,
    pub next_dao_id: u16,
    /// partner DAO address => its description
    pub daos: Map<AccountId, DaoInfoView>,
    /// events emitted and not yet drained, oldest first
    pub events: Seq<DaoEventView>,
}

impl DaoView {
    pub open spec fn emit(self, e: DaoEventView) -> DaoView {
        DaoView { events: self.events.push(e), ..self }
    }

    pub open spec fn is_member(self, a: AccountId) -> bool {
        self.members.contains_key(a)
    }

    /// The registry's consistency: every member is filed under an id of its
    /// own, below the next id to be given; the projects and tasks are filed
    /// under their own ids, which are exactly the ids below the next ones;
    /// every member filed by id is some address's member; every task belongs
    /// to a project that lists it; every stake has its deposit time, which
    /// its deposit text renders.
    pub open spec fn wf(self) -> bool {
        &&& forall|a: AccountId| #[trigger]
            self.members.contains_key(a) ==> {
                let m = self.members[a];
                &&& m.member_id < self.next_member_id
                &&& self.member_by_id.contains_key(m.member_id)
                &&& self.member_by_id[m.member_id] == m
            }
        &&& forall|a: AccountId, b: AccountId|
            #![trigger self.members[a], self.members[b]]
            self.members.contains_key(a) && self.members.contains_key(b)
                && self.members[a].member_id == self.members[b].member_id ==> a == b
        &&& forall|i: u16| #[trigger]
            self.member_by_id.contains_key(i) ==> i < self.next_member_id
                && self.member_by_id[i].member_id == i
        &&& forall|i: u16| #[trigger] self.projects.contains_key(i) <==> i < self.next_project_id
        &&& forall|i: u16| #[trigger]
            self.projects.contains_key(i) ==> self.projects[i].project_id == i
        &&& forall|i: u16| #[trigger] self.tasks.contains_key(i) <==> i < self.next_task_id
        &&& forall|i: u16| #[trigger]
            self.tasks.contains_key(i) ==> self.tasks[i].task_id == i && self.projects.contains_key(
                self.tasks[i].project_id,
            )
        &&& forall|i: u16| #[trigger]
            self.member_by_id.contains_key(i) ==> exists|a: AccountId| #[trigger]
                self.members.contains_key(a) && self.members[a].member_id == i
        &&& forall|i: u16| #[trigger]
            self.tasks.contains_key(i) ==> self.projects[self.tasks[i].project_id].task_list.contains(i)
        &&& forall|a: AccountId|
            #![trigger self.stakes.contains_key(a)]
            #![trigger self.stake_times.contains_key(a)]
            self.stakes.contains_key(a) <==> self.stake_times.contains_key(a)
        &&& forall|a: AccountId| #[trigger]
            self.stakes.contains_key(a) ==> self.stakes[a].deposit_time == decimal(
                self.stake_times[a] as nat,
            )
    }
}

/// The state of a newly created DAO: nothing registered yet.
pub open spec fn initial(admin: AccountId, info: DaoInfoView) -> DaoView {
    DaoView {
        dao_admin: admin,
        dao_id: 0,
        dao_info: info,
        tokens: Map::empty(),
        next_member_id: 0,
        members: Map::empty(),
        member_by_id: Map::empty(),
        projects: Map::empty(),
        next_project_id: 0,
        tasks: Map::empty(),
        next_task_id: 0,
        stakes: Map::empty(),
        stake_times: Map::empty(),
        total_stake: 0,
        staking_duration: 0,
        next_dao_id: 0,
        daos: Map::empty(),
        events: Seq::empty(),
    }
}

// ----- tokens -----

pub open spec fn add_dao_token(
    s: DaoView,
    caller: AccountId,
    dao_address: AccountId,
    token_type: TokenType,
    token_address: AccountId,
) -> (DaoView, Result<(), Error>) {
    if caller != s.dao_admin {
        (s, Err(Error::ThisFunctionCanBeCalledFromDaoManager))
    } else {
        let info = TokenInfo { token_type, token_address };
        (
            DaoView { tokens: s.tokens.insert(token_address, info), ..s }.emit(
                DaoEventView::GovernanceTokenAdded { dao_address, token_address },
            ),
            Ok(()),
        )
    }
}

pub open spec fn token_list(s: DaoView, token_address: AccountId) -> Seq<TokenInfo> {
    if s.tokens.contains_key(token_address) {
        seq![s.tokens[token_address]]
    } else {
        Seq::empty()
    }
}

/// Why a token distribution is refused before the token contract is called,
/// if it is.
pub open spec fn distribution_refusal(s: DaoView, caller: AccountId, token_address: AccountId) -> Option<Error> {
    if caller != s.dao_admin {
        Some(Error::ThisFunctionCanBeCalledFromDaoManager)
    } else if !s.tokens.contains_key(token_address) {
        Some(Error::TheTokenDoesNotExist)
    } else {
        None
    }
}

/// A distribution of `amount` tokens to `to`, where `delivered` is what the
/// token contract answered; `announce` says whether a `Transferred` event is
/// emitted on success.
pub open spec fn distribute(
    s: DaoView,
    caller: AccountId,
    token_address: AccountId,
    to: AccountId,
    amount: u128,
    delivered: bool,
    announce: bool,
) -> (DaoView, Result<(), Error>) {
    match distribution_refusal(s, caller, token_address) {
        Some(e) => (s, Err(e)),
        None => if delivered {
            (
                if announce {
                    s.emit(DaoEventView::Transferred { from: None, to, value: amount })
                } else {
                    s
                },
                Ok(()),
            )
        } else {
            (s, Err(Error::DistributionIsFailure))
        },
    }
}

// ----- members -----

/// The record of a member just admitted.
pub open spec fn new_member(name: Seq<char>, id: u16, now: u64) -> MemberInfoView {
    MemberInfoView {
        name,
        member_id: id,
        member_status: MemberStatus::Active,
        member_efficiency: 0,
        member_role: MemberRole::Unset,
        start_time: decimal(now as nat),
        end_time: None,
        task_list: Seq::empty(),
        project_list: Seq::empty(),
    }
}

/// Admitting a member would not run the member id counter past its range.
pub open spec fn add_member_fits(s: DaoView, caller: AccountId, member: AccountId) -> bool {
    caller == s.dao_admin && !s.members.contains_key(member) ==> s.next_member_id < u16::MAX
}

pub open spec fn add_member(
    s: DaoView,
    caller: AccountId,
    dao_address: AccountId,
    member: AccountId,
    name: Seq<char>,
    now: u64,
) -> (DaoView, Result<(), Error>) {
    if caller != s.dao_admin {
        (s, Err(Error::ThisFunctionCanBeCalledFromDaoManager))
    } else if s.members.contains_key(member) {
        (s, Err(Error::MemberAlreadyExists))
    } else {
        let id = s.next_member_id;
        let info = new_member(name, id, now);
        let next = (id + 1) as u16;
        (
            DaoView {
                member_by_id: s.member_by_id.insert(id, info),
                members: s.members.insert(member, info),
                next_member_id: next,
                ..s
            }.emit(DaoEventView::MemberAdded { dao_address, member, member_id: next }),
            Ok(()),
        )
    }
}

pub open spec fn delete_member(s: DaoView, caller: AccountId, member: AccountId) -> (
    DaoView,
    Result<(), Error>,
) {
    if caller != s.dao_admin {
        (s, Err(Error::ThisFunctionCanBeCalledFromDaoManager))
    } else if !s.members.contains_key(member) {
        (s, Err(Error::MemberDoesNotExist))
    } else {
        let id = s.members[member].member_id;
        (
            DaoView {
                member_by_id: s.member_by_id.remove(id),
                members: s.members.remove(member),
                ..s
            },
            Ok(()),
        )
    }
}

pub open spec fn terminate_member(
    s: DaoView,
    caller: AccountId,
    dao_address: AccountId,
    member: AccountId,
    now: u64,
) -> (DaoView, Result<(), Error>) {
    if caller != s.dao_admin {
        (s, Err(Error::ThisFunctionCanBeCalledFromDaoManager))
    } else if !s.members.contains_key(member) {
        (s, Err(Error::MemberDoesNotExist))
    } else if !s.member_by_id.contains_key(s.members[member].member_id) {
        (s, Err(Error::MemberDoesNotExist))
    } else {
        let m = s.members[member];
        let t = MemberInfoView {
            member_status: MemberStatus::Terminated,
            end_time: Some(decimal(now as nat)),
            ..m
        };
        (
            DaoView {
                members: s.members.insert(member, t),
                member_by_id: s.member_by_id.insert(m.member_id, t),
                ..s
            }.emit(
                DaoEventView::MemberTerminated {
                    dao_address,
                    member_address: member,
                    start_time: t.start_time,
                    end_time: t.end_time,
                },
            ),
            Ok(()),
        )
    }
}

pub open spec fn update_member_role(
    s: DaoView,
    caller: AccountId,
    dao_address: AccountId,
    member: AccountId,
    role: MemberRole,
) -> (DaoView, Result<(), Error>) {
    if caller != s.dao_admin {
        (s, Err(Error::ThisFunctionCanBeCalledFromDaoManager))
    } else if !s.members.contains_key(member) {
        (s, Err(Error::MemberDoesNotExist))
    } else if !s.member_by_id.contains_key(s.members[member].member_id) {
        (s, Err(Error::MemberDoesNotExist))
    } else {
        let m = s.members[member];
        let t = MemberInfoView { member_role: role, ..m };
        (
            DaoView {
                members: s.members.insert(member, t),
                member_by_id: s.member_by_id.insert(m.member_id, t),
                ..s
            }.emit(
                DaoEventView::MemberRoleUpdated { dao_address, member_address: member, new_role: role },
            ),
            Ok(()),
        )
    }
}

pub open spec fn member_info(s: DaoView, member: AccountId) -> Result<MemberInfoView, Error> {
    if s.members.contains_key(member) {
        Ok(s.members[member])
    } else {
        Err(Error::MemberDoesNotExist)
    }
}

// ----- projects -----

/// Creating a project would not run the project id counter, nor the end
/// date of its first sprint, past their ranges.
pub open spec fn create_project_fits(s: DaoView, caller: AccountId, assigned_to: AccountId, now: u64) -> bool {
    s.is_member(caller) && s.is_member(assigned_to) ==> s.next_project_id < u16::MAX && now
        + 7 * SECONDS_PER_DAY <= u64::MAX
}

pub open spec fn new_project(
    id: u16,
    name: Seq<char>,
    creator: AccountId,
    assigned_to: AccountId,
    now: u64,
) -> ProjectInfoView {
    ProjectInfoView {
        project_id: id,
        name,
        creator,
        project_status: ProjectStatus::Active,
        assigned_to,
        start_time: decimal(now as nat),
        end_time: None,
        task_list: Seq::empty(),
        sprint: SprintView {
            project_id: id,
            start_date: decimal(now as nat),
            end_date: decimal((now + 7 * SECONDS_PER_DAY) as nat),
            action: 0,
        },
    }
}

pub open spec fn create_project(
    s: DaoView,
    caller: AccountId,
    now: u64,
    name: Seq<char>,
    dao_address: AccountId,
    assigned_to: AccountId,
) -> (DaoView, Result<(), Error>) {
    if !s.is_member(caller) || !s.is_member(assigned_to) {
        (s, Err(Error::NotAMember))
    } else {
        let id = s.next_project_id;
        (
            DaoView {
                projects: s.projects.insert(id, new_project(id, name, caller, assigned_to, now)),
                next_project_id: (id + 1) as u16,
                ..s
            }.emit(
                DaoEventView::ProjectCreated {
                    dao_address,
                    creator: caller,
                    project_id: id,
                    assigned_to,
                    start_time: decimal(now as nat),
                },
            ),
            Ok(()),
        )
    }
}

pub open spec fn project_info(s: DaoView, id: u16) -> Result<ProjectInfoView, Error> {
    if s.projects.contains_key(id) {
        Ok(s.projects[id])
    } else {
        Err(Error::ProjectDoesNotExist)
    }
}

/// Why the caller may not change project `id`, if it may not.
pub open spec fn project_refusal(s: DaoView, caller: AccountId, id: u16) -> Option<Error> {
    if !s.projects.contains_key(id) {
        Some(Error::ProjectDoesNotExist)
    } else if s.projects[id].creator != caller {
        Some(Error::NotACreator)
    } else if !s.projects.contains_key(s.projects[id].project_id) {
        Some(Error::ProjectDoesNotExist)
    } else {
        None
    }
}

pub open spec fn update_project_status(
    s: DaoView,
    caller: AccountId,
    now: u64,
    id: u16,
    status: ProjectStatus,
) -> (DaoView, Result<(), Error>) {
    match project_refusal(s, caller, id) {
        Some(e) => (s, Err(e)),
        None => {
            let p = s.projects[id];
            let q = ProjectInfoView {
                project_status: status,
                end_time: if status == ProjectStatus::Completed {
                    Some(decimal(now as nat))
                } else {
                    p.end_time
                },
                ..p
            };
            (
                DaoView { projects: s.projects.insert(p.project_id, q), ..s }.emit(
                    DaoEventView::ProjectStatusUpdated { project_id: p.project_id, status },
                ),
                Ok(()),
            )
        },
    }
}

pub open spec fn close_project(s: DaoView, caller: AccountId, now: u64, id: u16) -> (
    DaoView,
    Result<(), Error>,
) {
    match project_refusal(s, caller, id) {
        Some(e) => (s, Err(e)),
        None => {
            let p = s.projects[id];
            let q = ProjectInfoView {
                project_status: ProjectStatus::Completed,
                end_time: Some(decimal(now as nat)),
                ..p
            };
            (
                DaoView { projects: s.projects.insert(p.project_id, q), ..s }.emit(
                    DaoEventView::ProjectCompleted {
                        project_id: p.project_id,
                        start_time: p.start_time,
                        end_time: q.end_time,
                    },
                ),
                Ok(()),
            )
        },
    }
}

pub open spec fn create_sprint(
    s: DaoView,
    id: u16,
    start_date: Seq<char>,
    end_date: Seq<char>,
) -> (DaoView, Result<(), Error>) {
    if !s.projects.contains_key(id) {
        (s, Err(Error::ProjectDoesNotExist))
    } else {
        let p = s.projects[id];
        let q = ProjectInfoView {
            sprint: SprintView { project_id: id, start_date, end_date, action: 0 },
            ..p
        };
        (
            DaoView { projects: s.projects.insert(id, q), ..s }.emit(
                DaoEventView::SprintAdded { project_id: id, start_date, end_date },
            ),
            Ok(()),
        )
    }
}

// ----- tasks -----

pub open spec fn create_task_refusal(
    s: DaoView,
    caller: AccountId,
    assigned_to: AccountId,
    project_id: u16,
) -> Option<Error> {
    if !s.is_member(caller) || !s.is_member(assigned_to) {
        Some(Error::NotAMember)
    } else if !s.projects.contains_key(project_id) {
        Some(Error::ProjectDoesNotExist)
    } else {
        None
    }
}

/// Creating a task would not run the task id counter past its range.
pub open spec fn create_task_fits(
    s: DaoView,
    caller: AccountId,
    assigned_to: AccountId,
    project_id: u16,
) -> bool {
    create_task_refusal(s, caller, assigned_to, project_id) is None ==> s.next_task_id < u16::MAX
}

pub open spec fn new_task(
    id: u16,
    project_id: u16,
    name: Seq<char>,
    creator: AccountId,
    assigned_to: AccountId,
    task_type: TaskType,
    now: u64,
) -> TaskInfoView {
    TaskInfoView {
        task_id: id,
        project_id,
        name,
        creator,
        task_status: TaskStatus::ToDO,
        assigned_to,
        task_type,
        start_time: decimal(now as nat),
        end_time: None,
        review: None,
        total_time_logged_in: None,
    }
}

pub open spec fn create_task(
    s: DaoView,
    caller: AccountId,
    now: u64,
    name: Seq<char>,
    dao_address: AccountId,
    assigned_to: AccountId,
    task_type: TaskType,
    project_id: u16,
) -> (DaoView, Result<(), Error>) {
    match create_task_refusal(s, caller, assigned_to, project_id) {
        Some(e) => (s, Err(e)),
        None => {
            let id = s.next_task_id;
            let p = s.projects[project_id];
            let q = ProjectInfoView { task_list: p.task_list.push(id), ..p };
            (
                DaoView {
                    tasks: s.tasks.insert(
                        id,
                        new_task(id, project_id, name, caller, assigned_to, task_type, now),
                    ),
                    next_task_id: (id + 1) as u16,
                    projects: s.projects.insert(p.project_id, q),
                    ..s
                }.emit(
                    DaoEventView::TaskCreated {
                        task_id: id,
                        project_id,
                        creator: caller,
                        assigned_to,
                        task_type,
                        start_time: decimal(now as nat),
                    },
                ),
                Ok(()),
            )
        },
    }
}

pub open spec fn create_review(
    s: DaoView,
    caller: AccountId,
    reviewer: AccountId,
    task_id: u16,
    project_id: u16,
    meta: Seq<u8>,
    opinion: ReviewOpinion,
) -> (DaoView, Result<(), Error>) {
    if !s.is_member(caller) || !s.is_member(reviewer) {
        (s, Err(Error::NotAMember))
    } else if !s.projects.contains_key(project_id) {
        (s, Err(Error::ProjectDoesNotExist))
    } else if !s.tasks.contains_key(task_id) {
        (s, Err(Error::TaskDoesNotExist))
    } else {
        let t = s.tasks[task_id];
        let review = ReviewStatusView {
            records: ReviewRecordView { who: reviewer, meta, option: opinion },
        };
        (DaoView { tasks: s.tasks.insert(task_id, TaskInfoView { review: Some(review), ..t }), ..s }, Ok(()))
    }
}

pub open spec fn update_task_status(
    s: DaoView,
    caller: AccountId,
    now: u64,
    task_id: u16,
    status: TaskStatus,
) -> (DaoView, Result<(), Error>) {
    if !s.is_member(caller) {
        (s, Err(Error::NotAMember))
    } else if !s.tasks.contains_key(task_id) {
        (s, Err(Error::TaskDoesNotExist))
    } else if s.tasks[task_id].creator != caller || s.tasks[task_id].assigned_to != caller {
        (s, Err(Error::NotaTaskAuthority))
    } else {
        let t = s.tasks[task_id];
        let u = TaskInfoView {
            task_status: status,
            end_time: if status == TaskStatus::Completed {
                Some(decimal(now as nat))
            } else {
                t.end_time
            },
            ..t
        };
        (DaoView { tasks: s.tasks.insert(task_id, u), ..s }, Ok(()))
    }
}

pub open spec fn task_info(s: DaoView, id: u16) -> Result<TaskInfoView, Error> {
    if s.tasks.contains_key(id) {
        Ok(s.tasks[id])
    } else {
        Err(Error::TaskDoesNotExist)
    }
}

pub open spec fn close_task(s: DaoView, caller: AccountId, now: u64, task_id: u16) -> (
    DaoView,
    Result<(), Error>,
) {
    if !s.tasks.contains_key(task_id) {
        (s, Err(Error::ProjectDoesNotExist))
    } else if s.tasks[task_id].creator != caller {
        (s, Err(Error::NotACreator))
    } else if !s.projects.contains_key(s.tasks[task_id].project_id) {
        (s, Err(Error::ProjectDoesNotExist))
    } else {
        let t = s.tasks[task_id];
        let u = TaskInfoView {
            task_status: TaskStatus::Completed,
            end_time: Some(decimal(now as nat)),
            ..t
        };
        (DaoView { tasks: s.tasks.insert(task_id, u), ..s }, Ok(()))
    }
}

/// Logging time would not overflow the task's `u16` time total.
pub open spec fn time_log_fits(s: DaoView, caller: AccountId, task_id: u16, time: u16) -> bool {
    s.tasks.contains_key(task_id) && s.tasks[task_id].assigned_to == caller
        && s.tasks[task_id].total_time_logged_in is Some ==> s.tasks[task_id].total_time_logged_in->0
        + time <= u16::MAX
}

pub open spec fn time_log(s: DaoView, caller: AccountId, task_id: u16, time: u16) -> (
    DaoView,
    Result<(), Error>,
) {
    if !s.tasks.contains_key(task_id) {
        (s, Err(Error::TaskDoesNotExist))
    } else if s.tasks[task_id].assigned_to != caller {
        (s, Err(Error::NotaTaskAuthority))
    } else {
        let t = s.tasks[task_id];
        let total = match t.total_time_logged_in {
            Some(d) => (d + time) as u16,
            None => time,
        };
        (
            DaoView {
                tasks: s.tasks.insert(task_id, TaskInfoView { total_time_logged_in: Some(total), ..t }),
                ..s
            },
            Ok(()),
        )
    }
}

// ----- staking -----

pub open spec fn set_stake_data(s: DaoView, caller: AccountId, interest_rate: u8, duration: u64) -> (
    DaoView,
    Result<(), Error>,
) {
    if caller != s.dao_admin {
        (s, Err(Error::NotAAdmin))
    } else {
        (DaoView { total_stake: interest_rate, staking_duration: duration, ..s }, Ok(()))
    }
}

pub open spec fn account_stake(s: DaoView, account: AccountId) -> Result<StakeView, Error> {
    if s.stakes.contains_key(account) {
        Ok(s.stakes[account])
    } else {
        Err(Error::AccountNotExist)
    }
}

pub open spec fn stake_info(s: DaoView, account: AccountId) -> Result<StakeView, Error> {
    if s.stakes.contains_key(account) {
        Ok(s.stakes[account])
    } else {
        Err(Error::NotStaked)
    }
}

/// A payment of `amount` out of a contract holding `contract_balance`, where
/// `delivered` is what the chain answered to the transfer.
pub open spec fn payment(contract_balance: u128, amount: u128, delivered: bool) -> Result<(), Error> {
    if contract_balance < amount {
        Err(Error::InsufficientContractBalance)
    } else if !delivered {
        Err(Error::TransferFailed)
    } else {
        Ok(())
    }
}

pub open spec fn early_withdraw(s: DaoView, caller: AccountId, contract_balance: u128, delivered: bool) -> (
    DaoView,
    Result<StakeView, Error>,
) {
    if !s.stakes.contains_key(caller) {
        (s, Err(Error::AccountNotExist))
    } else {
        let st = s.stakes[caller];
        match payment(contract_balance, st.staked_amount, delivered) {
            Err(e) => (s, Err(e)),
            Ok(_) => (
                DaoView { stakes: s.stakes.remove(caller), stake_times: s.stake_times.remove(caller), ..s }.emit(
                    DaoEventView::WithdrawSuccessful { staker: caller, stake: st },
                ),
                Ok(st),
            ),
        }
    }
}

/// The units a deposit of `amount` adds to the stake total: whole
/// `STAKE_UNIT`s, kept modulo 256.
pub open spec fn stake_units(amount: u128) -> int {
    ((amount / STAKE_UNIT) % 256) as int
}

/// Why a deposit is refused, if it is: one stake per account, stakers are
/// members, the contract does not stake with itself, and a deposit is at
/// least `MIN_DEPOSIT_BALANCE`.
pub open spec fn add_stake_refusal(s: DaoView, caller: AccountId, contract_account: AccountId, amount: u128) -> Option<Error> {
    if s.stakes.contains_key(caller) {
        Some(Error::AlreadyStaked)
    } else if !s.is_member(caller) {
        Some(Error::NotAMember)
    } else if caller == contract_account {
        Some(Error::SelfStakingNotAllowed)
    } else if amount < MIN_DEPOSIT_BALANCE {
        Some(Error::DepositNotSufficient)
    } else {
        None
    }
}

/// A deposit would not take the stake total past `u8::MAX`.
pub open spec fn add_stake_fits(s: DaoView, caller: AccountId, contract_account: AccountId, amount: u128) -> bool {
    add_stake_refusal(s, caller, contract_account, amount) is None ==> s.total_stake + stake_units(amount)
        <= u8::MAX
}

pub open spec fn add_stake(
    s: DaoView,
    caller: AccountId,
    contract_account: AccountId,
    now: u64,
    amount: u128,
) -> (DaoView, Result<(), Error>) {
    match add_stake_refusal(s, caller, contract_account, amount) {
        Some(e) => (s, Err(e)),
        None => {
            let st = StakeView {
                staked_amount: amount,
                deposit_time: decimal(now as nat),
                release_time: None,
            };
            (
                DaoView {
                    total_stake: (s.total_stake + stake_units(amount)) as u8,
                    stakes: s.stakes.insert(caller, st),
                    stake_times: s.stake_times.insert(caller, now),
                    ..s
                }.emit(DaoEventView::DepositSuccessful { staker: caller, stake: st }),
                Ok(()),
            )
        },
    }
}

/// The staking period of the caller's stake has not ended at time `now`:
/// its deposit time plus the staking duration is still ahead.
pub open spec fn staking_period_running(s: DaoView, caller: AccountId, now: u64) -> bool {
    s.stake_times.contains_key(caller) && now < s.stake_times[caller] + s.staking_duration
}

/// Why a redemption is refused before any payment, if it is.
pub open spec fn redeem_refusal(s: DaoView, caller: AccountId, now: u64) -> Option<Error> {
    if !s.stakes.contains_key(caller) {
        Some(Error::NotStaked)
    } else if !s.is_member(caller) {
        Some(Error::NotAMember)
    } else if staking_period_running(s, caller, now) {
        Some(Error::RedeemDurationNotReached)
    } else {
        None
    }
}

/// Redeeming would not take the stake total below zero; the total drops by
/// the stake's amount modulo 256.
pub open spec fn redeem_stake_fits(s: DaoView, caller: AccountId, now: u64, contract_balance: u128) -> bool {
    redeem_refusal(s, caller, now) is None && contract_balance >= s.stakes[caller].staked_amount
        ==> s.total_stake >= s.stakes[caller].staked_amount % 256
}

pub open spec fn redeem_stake(
    s: DaoView,
    caller: AccountId,
    now: u64,
    contract_balance: u128,
    delivered: bool,
) -> (DaoView, Result<(), Error>) {
    match redeem_refusal(s, caller, now) {
        Some(e) => (s, Err(e)),
        None => {
            let st = s.stakes[caller];
            match payment(contract_balance, st.staked_amount, delivered) {
                Err(e) => (s, Err(e)),
                Ok(_) => (
                    DaoView {
                        total_stake: (s.total_stake - st.staked_amount % 256) as u8,
                        stakes: s.stakes.remove(caller),
                        stake_times: s.stake_times.remove(caller),
                        ..s
                    }.emit(
                        DaoEventView::RedeemSuccessful {
                            staker: caller,
                            stake: StakeView { release_time: Some(decimal(now as nat)), ..st },
                        },
                    ),
                    Ok(()),
                ),
            }
        },
    }
}

/// Computing the caller's ownership would not divide by a zero stake total.
pub open spec fn ownership_fits(s: DaoView, caller: AccountId) -> bool {
    s.stakes.contains_key(caller) ==> s.total_stake > 0
}

/// The caller's share of the stake total, in percent: its stake's amount
/// modulo 256 over the total.
pub open spec fn ownership(s: DaoView, caller: AccountId) -> Result<Seq<char>, Error> {
    if !s.stakes.contains_key(caller) {
        Err(Error::NotStaked)
    } else {
        Ok(
            fixed_display(
                ownership_bits((s.stakes[caller].staked_amount % 256) as u8, s.total_stake) as i128,
            ),
        )
    }
}

// ----- partner DAOs -----

pub open spec fn dao_as_member_fits(s: DaoView, caller: AccountId, dao_address: AccountId) -> bool {
    caller == s.dao_admin && !s.daos.contains_key(dao_address) ==> s.next_dao_id < u16::MAX
}

pub open spec fn dao_as_member(s: DaoView, caller: AccountId, dao_address: AccountId, info: DaoInfoView) -> (
    DaoView,
    Result<(), Error>,
) {
    if caller != s.dao_admin {
        (s, Err(Error::ThisFunctionCanBeCalledFromDaoManager))
    } else if s.daos.contains_key(dao_address) {
        (s, Err(Error::MemberAlreadyExists))
    } else {
        (
            DaoView {
                daos: s.daos.insert(dao_address, info),
                next_dao_id: (s.next_dao_id + 1) as u16,
                ..s
            },
            Ok(()),
        )
    }
}

pub open spec fn dao_info_with_address(s: DaoView, dao_address: AccountId) -> Result<DaoInfoView, Error> {
    if s.daos.contains_key(dao_address) {
        Ok(s.daos[dao_address])
    } else {
        Err(Error::MemberDoesNotExist)
    }
}

} // verus!
