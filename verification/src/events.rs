//! Events the DAO emits; they are queued in its state until drained.
use vstd::prelude::*;
use crate::account::AccountId;
use crate::types::{text_opt, MemberRole, ProjectStatus, Stake, StakeView, TaskType};

verus! {

#[derive(Debug, Clone, PartialEq, Eq)]
pub struct MemberAdded {
    pub dao_address: AccountId,
    pub member: AccountId,
    pub member_id: u16,
}

#[derive(Debug, Clone, PartialEq, Eq)]
pub struct GovernanceTokenAdded {
    pub dao_address: AccountId,
    pub token_address: AccountId,
}

#[derive(Debug, Clone, PartialEq, Eq)]
pub struct Transferred {
    pub from: Option<AccountId>,
    pub to: AccountId,
    pub value: u128,
}

#[derive(Debug, Clone, PartialEq, Eq)]
pub struct MemberTerminated {
    pub dao_address: AccountId,
    pub member_address: AccountId,
    pub start_time: String,
    pub end_time: Option<String>,
}

#[derive(Debug, Clone, PartialEq, Eq)]
pub struct MemberRoleUpdated {
    pub dao_address: AccountId,
    pub member_address: AccountId,
    pub new_role: MemberRole,
}

#[derive(Debug, Clone, PartialEq, Eq)]
pub struct ProjectCreated {
    pub dao_address: AccountId,
    pub creator: AccountId,
    pub project_id: u16,
    pub assigned_to: AccountId,
    pub start_time: String,
}

#[derive(Debug, Clone, PartialEq, Eq)]
pub struct ProjectStatusUpdated {
    pub project_id: u16,
    pub status: ProjectStatus,
}

#[derive(Debug, Clone, PartialEq, Eq)]
pub struct ProjectCompleted {
    pub project_id: u16,
    pub start_time: String,
    pub end_time: Option<String>,
}

#[derive(Debug, Clone, PartialEq, Eq)]
pub struct TaskCreated {
    pub task_id: u16,
    pub project_id: u16,
    pub creator: AccountId,
    pub assigned_to: AccountId,
    pub task_type: TaskType,
    pub start_time: String,
}

#[derive(Debug, Clone, PartialEq, Eq)]
pub struct RedeemSuccessful {
    pub staker: AccountId,
    pub stake: Stake,
}

#[derive(Debug, Clone, PartialEq, Eq)]
pub struct WithdrawSuccessful {
    pub staker: AccountId,
    pub stake: Stake,
}

#[derive(Debug, Clone, PartialEq, Eq)]
pub struct DepositSuccessful {
    pub staker: AccountId,
    pub stake: Stake,
}

#[derive(Debug, Clone, PartialEq, Eq)]
pub struct SprintAdded {
    pub project_id: u16,
    pub start_date: String,
    pub end_date: String,
}

/// Any event the DAO emits.
#[derive(Debug, Clone, PartialEq, Eq)]
pub enum DaoEvent {
    MemberAdded(MemberAdded),
    GovernanceTokenAdded(GovernanceTokenAdded),
    Transferred(Transferred),
    MemberTerminated(MemberTerminated),
    MemberRoleUpdated(MemberRoleUpdated),
    ProjectCreated(ProjectCreated),
    ProjectStatusUpdated(ProjectStatusUpdated),
    ProjectCompleted(ProjectCompleted),
    TaskCreated(TaskCreated),
    RedeemSuccessful(RedeemSuccessful),
    WithdrawSuccessful(WithdrawSuccessful),
    DepositSuccessful(DepositSuccessful),
    SprintAdded(SprintAdded),
}

/// The view of an event: texts as character sequences.
pub enum DaoEventView {
    MemberAdded { dao_address: AccountId, member: AccountId, member_id: u16 },
    GovernanceTokenAdded { dao_address: AccountId, token_address: AccountId },
    Transferred { from: Option<AccountId>, to: AccountId, value: u128 },
    MemberTerminated {
        dao_address: AccountId,
        member_address: AccountId,
        start_time: Seq<char>,
        end_time: Option<Seq<char>>,
    },
    MemberRoleUpdated { dao_address: AccountId, member_address: AccountId, new_role: MemberRole },
    ProjectCreated {
        dao_address: AccountId,
        creator: AccountId,
        project_id: u16,
        assigned_to: AccountId,
        start_time: Seq<char>,
    },
    ProjectStatusUpdated { project_id: u16, status: ProjectStatus },
    ProjectCompleted { project_id: u16, start_time: Seq<char>, end_time: Option<Seq<char>> },
    TaskCreated {
        task_id: u16,
        project_id: u16,
        creator: AccountId,
        assigned_to: AccountId,
        task_type: TaskType,
        start_time: Seq<char>,
    },
    RedeemSuccessful { staker: AccountId, stake: StakeView },
    WithdrawSuccessful { staker: AccountId, stake: StakeView },
    DepositSuccessful { staker: AccountId, stake: StakeView },
    SprintAdded { project_id: u16, start_date: Seq<char>, end_date: Seq<char> },
}

impl View for DaoEvent {
    type V = DaoEventView;

    open spec fn view(&self) -> DaoEventView {
        match self {
            DaoEvent::MemberAdded(e) => DaoEventView::MemberAdded {
                dao_address: e.dao_address,
                member: e.member,
                member_id: e.member_id,
            },
            DaoEvent::GovernanceTokenAdded(e) => DaoEventView::GovernanceTokenAdded {
                dao_address: e.dao_address,
                token_address: e.token_address,
            },
            DaoEvent::Transferred(e) => DaoEventView::Transferred {
                from: e.from,
                to: e.to,
                value: e.value,
            },
            DaoEvent::MemberTerminated(e) => DaoEventView::MemberTerminated {
                dao_address: e.dao_address,
                member_address: e.member_address,
                start_time: e.start_time@,
                end_time: text_opt(e.end_time),
            },
            DaoEvent::MemberRoleUpdated(e) => DaoEventView::MemberRoleUpdated {
                dao_address: e.dao_address,
                member_address: e.member_address,
                new_role: e.new_role,
            },
            DaoEvent::ProjectCreated(e) => DaoEventView::ProjectCreated {
                dao_address: e.dao_address,
                creator: e.creator,
                project_id: e.project_id,
                assigned_to: e.assigned_to,
                start_time: e.start_time@,
            },
            DaoEvent::ProjectStatusUpdated(e) => DaoEventView::ProjectStatusUpdated {
                project_id: e.project_id,
                status: e.status,
            },
            DaoEvent::ProjectCompleted(e) => DaoEventView::ProjectCompleted {
                project_id: e.project_id,
                start_time: e.start_time@,
                end_time: text_opt(e.end_time),
            },
            DaoEvent::TaskCreated(e) => DaoEventView::TaskCreated {
                task_id: e.task_id,
                project_id: e.project_id,
                creator: e.creator,
                assigned_to: e.assigned_to,
                task_type: e.task_type,
                start_time: e.start_time@,
            },
            DaoEvent::RedeemSuccessful(e) => DaoEventView::RedeemSuccessful {
                staker: e.staker,
                stake: e.stake@,
            },
            DaoEvent::WithdrawSuccessful(e) => DaoEventView::WithdrawSuccessful {
                staker: e.staker,
                stake: e.stake@,
            },
            DaoEvent::DepositSuccessful(e) => DaoEventView::DepositSuccessful {
                staker: e.staker,
                stake: e.stake@,
            },
            DaoEvent::SprintAdded(e) => DaoEventView::SprintAdded {
                project_id: e.project_id,
                start_date: e.start_date@,
                end_date: e.end_date@,
            },
        }
    }
}

} // verus!
