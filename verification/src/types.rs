//! The records the DAO keeps, their mathematical views, its events and its
//! errors.
use vstd::prelude::*;
use crate::account::AccountId;
use crate::table::Record;

verus! {

/// Kind of a governance token registered with the DAO.
#[derive(Debug, Clone, Copy, PartialEq, Eq, Structural)]
pub enum TokenType {
    GovernanceToken,
    Psp22,
    Psp34,
}

/// Membership status.
#[derive(Debug, Clone, Copy, PartialEq, Eq, Structural, Default)]
pub enum MemberStatus {
    Active,
    Inactive,
    Terminated,
    #[default]
    Unset,
}

/// Role of a member.
#[derive(Debug, Clone, Copy, PartialEq, Eq, Structural, Default)]
pub enum MemberRole {
    Creator,
    Recruiter,
    Supporter,
    Auditor,
    Marketer,
    Seller,
    Advisor,
    #[default]
    Unset,
}

/// Status of a project.
#[derive(Debug, Clone, Copy, PartialEq, Eq, Structural, Default)]
pub enum ProjectStatus {
    Active,
    Inactive,
    Completed,
    Incompelte,
    #[default]
    Unset,
}

/// Opinion given in a review.
#[derive(Debug, Clone, Copy, PartialEq, Eq, Structural, Default)]
pub enum ReviewOpinion {
    /// Agree.
    YES,
    /// Reject.
    NO,
    #[default]
    Unset,
}

/// Status of a task.
#[derive(Debug, Clone, Copy, PartialEq, Eq, Structural, Default)]
pub enum TaskStatus {
    ToDO,
    InProgress,
    ReadyToPR,
    BackToCw,
    DevVerfied,
    LiveDeployed,
    Closed,
    Completed,
    #[default]
    Unset,
}

/// Kind of a task.
#[derive(Debug, Clone, Copy, PartialEq, Eq, Structural, Default)]
pub enum TaskType {
    Bug,
    Feature,
    #[default]
    Unset,
}

/// Errors of the DAO's operations.
#[derive(Debug, Clone, Copy, PartialEq, Eq, Structural)]
pub enum Error {
    /// The Token Does Not Exists.
    TheTokenDoesNotExist,
    /// Invalid Operation.
    InvalidOperation,
    /// Not a Member
    NotAMember,
    /// Distribution is failure.
    DistributionIsFailure,
    /// Changing Token Status Is Failure.
    ChangingTokenStatusIsFailure,
    /// Withdrawing is Failure.
    WithdrawingIsFailure,
    /// Wrong Csv Data
    WrongCsvData,
    /// Tranfering Contract Balance is Failure
    TransferingContractBalanceIsFailure,
    /// Only the DAO manager may call this function.
    ThisFunctionCanBeCalledFromDaoManager,
    /// Not first member
    NotFirstMember,
    /// Target member does not exist.
    MemberDoesNotExist,
    /// Target member already exists.
    MemberAlreadyExists,
    /// Electoral Commissioner Data is mismatched.
    ElectoralCommissionerDataMismatch,
    /// Only Member does.
    OnlyMemberDoes,
    /// Only Electoral Commissioner
    OnlyElectoralCommissioner,
    /// Only Proposal Manager Address call this function.
    OnlyFromProposalManagerAddress,
    /// Csv Convert Failure
    CsvConvertFailure,
    /// Invalid Electoral Commissioner Count
    InvalidElectoralCommissionerCount,
    /// Invalid Delete Member Count
    InvalidDeleteMemberCount,
    /// At least one election commissioner
    AtLeastOneElectionCommissioner,
    /// Possible bug
    PossibleBug,
    /// Not a creator
    NotACreator,
    /// project does not exist
    ProjectDoesNotExist,
    /// Task does not exist
    TaskDoesNotExist,
    /// Not a Task Authority
    NotaTaskAuthority,
    /// Account does not exists
    AccountNotExist,
    /// Not Allowed
    NotAllowed,
    /// Only the owner can claim the refund
    InvalidRefundRequest,
    /// Prevents multiple stake for same account, one person one stake
    AccountAlreadyExists,
    /// deposits not sufficient
    DepositNotSufficient,
    /// self staking not allowed
    SelfStakingNotAllowed,
    /// can not redeem before the period
    RedeemDurationNotReached,
    /// insufficient funds
    InsufficientContractBalance,
    /// transfer failed
    TransferFailed,
    /// Not a Admin
    NotAAdmin,
    /// total ownership can not be
    InvalidOwnershipPercentage,
    /// add stake failed
    AddStakeFailed,
    /// Already staked
    AlreadyStaked,
    /// NotStaked
    NotStaked,
}

/// The view of an optional text.
pub open spec fn text_opt(o: Option<String>) -> Option<Seq<char>> {
    match o {
        Some(s) => Some(s@),
        None => None,
    }
}

fn dup_text_opt(o: &Option<String>) -> (copy: Option<String>)
    ensures
        text_opt(copy) == text_opt(*o),
{
    match o {
        Some(s) => Some(s.clone()),
        None => None,
    }
}

fn dup_vec<T: Copy>(v: &Vec<T>) -> (copy: Vec<T>)
    ensures
        copy@ == v@,
{
    let mut copy: Vec<T> = Vec::new();
    let mut i: usize = 0;
    while i < v.len()
        invariant
            0 <= i <= v@.len(),
            copy@ == v@.take(i as int),
        decreases v@.len() - i,
    {
        copy.push(v[i]);
        i = i + 1;
        assert(copy@ =~= v@.take(i as int));
    }
    assert(v@.take(v@.len() as int) =~= v@);
    copy
}

/// Public description of a DAO.
#[derive(Debug, Clone, PartialEq, Eq)]
pub struct DaoInfo {
    pub dao_name: String,
    pub description: String,
    pub website: Option<String>,
    pub profile: Option<String>,
}

pub struct DaoInfoView {
    pub dao_name: Seq<char>,
    pub description: Seq<char>,
    pub website: Option<Seq<char>>,
    pub profile: Option<Seq<char>>,
}

impl View for DaoInfo {
    type V = DaoInfoView;

    open spec fn view(&self) -> DaoInfoView {
        DaoInfoView {
            dao_name: self.dao_name@,
            description: self.description@,
            website: text_opt(self.website),
            profile: text_opt(self.profile),
        }
    }
}

impl Record for DaoInfo {
    fn duplicate(&self) -> (copy: DaoInfo) {
        DaoInfo {
            dao_name: self.dao_name.clone(),
            description: self.description.clone(),
            website: dup_text_opt(&self.website),
            profile: dup_text_opt(&self.profile),
        }
    }
}

/// A member of the DAO.
#[derive(Debug, Clone, PartialEq, Eq, Default)]
pub struct MemberInfo {
    pub name: String,
    pub member_id: u16,
    pub member_status: MemberStatus,
    pub member_efficiency: u128,
    pub member_role: MemberRole,
    pub start_time: String,
    pub end_time: Option<String>,
    pub task_list: Vec<u16>,
    pub project_list: Vec<u16>,
}

pub struct MemberInfoView {
    pub name: Seq<char>,
    pub member_id: u16,
    pub member_status: MemberStatus,
    pub member_efficiency: u128,
    pub member_role: MemberRole,
    pub start_time: Seq<char>,
    pub end_time: Option<Seq<char>>,
    pub task_list: Seq<u16>,
    pub project_list: Seq<u16>,
}

impl View for MemberInfo {
    type V = MemberInfoView;

    open spec fn view(&self) -> MemberInfoView {
        MemberInfoView {
            name: self.name@,
            member_id: self.member_id,
            member_status: self.member_status,
            member_efficiency: self.member_efficiency,
            member_role: self.member_role,
            start_time: self.start_time@,
            end_time: text_opt(self.end_time),
            task_list: self.task_list@,
            project_list: self.project_list@,
        }
    }
}

impl Record for MemberInfo {
    fn duplicate(&self) -> (copy: MemberInfo) {
        MemberInfo {
            name: self.name.clone(),
            member_id: self.member_id,
            member_status: self.member_status,
            member_efficiency: self.member_efficiency,
            member_role: self.member_role,
            start_time: self.start_time.clone(),
            end_time: dup_text_opt(&self.end_time),
            task_list: dup_vec(&self.task_list),
            project_list: dup_vec(&self.project_list),
        }
    }
}

/// A token registered with the DAO.
#[derive(Debug, Clone, Copy, PartialEq, Eq)]
pub struct TokenInfo {
    pub token_type: TokenType,
    pub token_address: AccountId,
}

impl View for TokenInfo {
    type V = TokenInfo;

    open spec fn view(&self) -> TokenInfo {
        *self
    }
}

impl Record for TokenInfo {
    fn duplicate(&self) -> (copy: TokenInfo) {
        *self
    }
}

/// The current sprint of a project.
#[derive(Debug, Clone, PartialEq, Eq, Default)]
pub struct Sprint {
    pub project_id: u16,
    pub start_date: String,
    pub end_date: String,
    pub action: u8,
}

pub struct SprintView {
    pub project_id: u16,
    pub start_date: Seq<char>,
    pub end_date: Seq<char>,
    pub action: u8,
}

impl View for Sprint {
    type V = SprintView;

    open spec fn view(&self) -> SprintView {
        SprintView {
            project_id: self.project_id,
            start_date: self.start_date@,
            end_date: self.end_date@,
            action: self.action,
        }
    }
}

impl Sprint {
    fn duplicate(&self) -> (copy: Sprint)
        ensures
            copy@ == self@,
    {
        Sprint {
            project_id: self.project_id,
            start_date: self.start_date.clone(),
            end_date: self.end_date.clone(),
            action: self.action,
        }
    }
}

/// A project of the DAO.
#[derive(Debug, Clone, PartialEq, Eq)]
pub struct ProjectInfo {
    pub project_id: u16,
    pub name: String,
    pub creator: AccountId,
    pub project_status: ProjectStatus,
    pub assigned_to: AccountId,
    pub start_time: String,
    pub end_time: Option<String>,
    pub task_list: Vec<u16>,
    pub sprint: Sprint,
}

pub struct ProjectInfoView {
    pub project_id: u16,
    pub name: Seq<char>,
    pub creator: AccountId,
    pub project_status: ProjectStatus,
    pub assigned_to: AccountId,
    pub start_time: Seq<char>,
    pub end_time: Option<Seq<char>>,
    pub task_list: Seq<u16>,
    pub sprint: SprintView,
}

impl View for ProjectInfo {
    type V = ProjectInfoView;

    open spec fn view(&self) -> ProjectInfoView {
        ProjectInfoView {
            project_id: self.project_id,
            name: self.name@,
            creator: self.creator,
            project_status: self.project_status,
            assigned_to: self.assigned_to,
            start_time: self.start_time@,
            end_time: text_opt(self.end_time),
            task_list: self.task_list@,
            sprint: self.sprint@,
        }
    }
}

impl Record for ProjectInfo {
    fn duplicate(&self) -> (copy: ProjectInfo) {
        ProjectInfo {
            project_id: self.project_id,
            name: self.name.clone(),
            creator: self.creator,
            project_status: self.project_status,
            assigned_to: self.assigned_to,
            start_time: self.start_time.clone(),
            end_time: dup_text_opt(&self.end_time),
            task_list: dup_vec(&self.task_list),
            sprint: self.sprint.duplicate(),
        }
    }
}

/// One review of a task.
#[derive(Debug, Clone, PartialEq, Eq)]
pub struct ReviewRecord {
    pub who: AccountId,
    pub meta: Vec<u8>,
    pub option: ReviewOpinion,
}

pub struct ReviewRecordView {
    pub who: AccountId,
    pub meta: Seq<u8>,
    pub option: ReviewOpinion,
}

impl View for ReviewRecord {
    type V = ReviewRecordView;

    open spec fn view(&self) -> ReviewRecordView {
        ReviewRecordView { who: self.who, meta: self.meta@, option: self.option }
    }
}

/// The review state of a task.
#[derive(Debug, Clone, PartialEq, Eq)]
pub struct ReviewStatus {
    pub records: ReviewRecord,
}

pub struct ReviewStatusView {
    pub records: ReviewRecordView,
}

impl View for ReviewStatus {
    type V = ReviewStatusView;

    open spec fn view(&self) -> ReviewStatusView {
        ReviewStatusView { records: self.records@ }
    }
}

/// The view of an optional review.
pub open spec fn review_opt(o: Option<ReviewStatus>) -> Option<ReviewStatusView> {
    match o {
        Some(r) => Some(r@),
        None => None,
    }
}

fn dup_review_opt(o: &Option<ReviewStatus>) -> (copy: Option<ReviewStatus>)
    ensures
        review_opt(copy) == review_opt(*o),
{
    match o {
        Some(r) => Some(
            ReviewStatus {
                records: ReviewRecord {
                    who: r.records.who,
                    meta: dup_vec(&r.records.meta),
                    option: r.records.option,
                },
            },
        ),
        None => None,
    }
}

/// A task of a project.
#[derive(Debug, Clone, PartialEq, Eq)]
pub struct TaskInfo {
    pub task_id: u16,
    pub project_id: u16,
    pub name: String,
    pub creator: AccountId,
    pub task_status: TaskStatus,
    pub assigned_to: AccountId,
    pub task_type: TaskType,
    pub start_time: String,
    pub end_time: Option<String>,
    pub review: Option<ReviewStatus>,
    pub total_time_logged_in: Option<u16>,
}

pub struct TaskInfoView {
    pub task_id: u16,
    pub project_id: u16,
    pub name: Seq<char>,
    pub creator: AccountId,
    pub task_status: TaskStatus,
    pub assigned_to: AccountId,
    pub task_type: TaskType,
    pub start_time: Seq<char>,
    pub end_time: Option<Seq<char>>,
    pub review: Option<ReviewStatusView>,
    pub total_time_logged_in: Option<u16>,
}

impl View for TaskInfo {
    type V = TaskInfoView;

    open spec fn view(&self) -> TaskInfoView {
        TaskInfoView {
            task_id: self.task_id,
            project_id: self.project_id,
            name: self.name@,
            creator: self.creator,
            task_status: self.task_status,
            assigned_to: self.assigned_to,
            task_type: self.task_type,
            start_time: self.start_time@,
            end_time: text_opt(self.end_time),
            review: review_opt(self.review),
            total_time_logged_in: self.total_time_logged_in,
        }
    }
}

impl Record for TaskInfo {
    fn duplicate(&self) -> (copy: TaskInfo) {
        TaskInfo {
            task_id: self.task_id,
            project_id: self.project_id,
            name: self.name.clone(),
            creator: self.creator,
            task_status: self.task_status,
            assigned_to: self.assigned_to,
            task_type: self.task_type,
            start_time: self.start_time.clone(),
            end_time: dup_text_opt(&self.end_time),
            review: dup_review_opt(&self.review),
            total_time_logged_in: self.total_time_logged_in,
        }
    }
}

/// A stake deposited by a member.
#[derive(Debug, Clone, PartialEq, Eq)]
pub struct Stake {
    pub staked_amount: u128,
    pub deposit_time: String,
    pub release_time: Option<String>,
}

pub struct StakeView {
    pub staked_amount: u128,
    pub deposit_time: Seq<char>,
    pub release_time: Option<Seq<char>>,
}

impl View for Stake {
    type V = StakeView;

    open spec fn view(&self) -> StakeView {
        StakeView {
            staked_amount: self.staked_amount,
            deposit_time: self.deposit_time@,
            release_time: text_opt(self.release_time),
        }
    }
}

impl Record for Stake {
    fn duplicate(&self) -> (copy: Stake) {
        Stake {
            staked_amount: self.staked_amount,
            deposit_time: self.deposit_time.clone(),
            release_time: dup_text_opt(&self.release_time),
        }
    }
}

/// Staking parameters of a DAO.
#[derive(Debug, Clone, Copy, PartialEq, Eq)]
pub struct Metadata {
    pub owner: AccountId,
    pub staking_duration: u64,
    pub interest: u8,
}

} // verus!
