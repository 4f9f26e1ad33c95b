//! The DAO contract's state and operations.
//!
//! What the chain supplies (the caller, the block time, the contract's
//! balance) is passed in as plain values; the chain's transfers and the calls
//! into a token contract are passed in as closures, and each operation states
//! its result for either answer they give.
use vstd::prelude::*;
use crate::account::AccountId;
use crate::events::{
    DaoEvent, DaoEventView, DepositSuccessful, GovernanceTokenAdded, MemberAdded,
    MemberRoleUpdated, MemberTerminated, ProjectCompleted, ProjectCreated, ProjectStatusUpdated,
    RedeemSuccessful, SprintAdded, TaskCreated, Transferred, WithdrawSuccessful,
};
use crate::model;
use crate::model::DaoView;
use crate::ownership::{fixed_display, ownership_bits, ownership_text};
use crate::table::{listed, Record, Table};
use crate::text::timestamp_text;
use crate::types::{
    DaoInfo, Error, MemberInfo, MemberRole, MemberStatus, ProjectInfo, ProjectStatus,
    ReviewOpinion, ReviewRecord, ReviewStatus, Sprint, Stake, TaskInfo, TaskStatus, TaskType,
    StakeView, TokenInfo, TokenType,
};

verus! {

/// The DAO: its description, members, projects, tasks, stakes, registered
/// tokens and partner DAOs.
pub struct FelidaeDao {
    dao_admin: AccountId,
    dao_id: u8,
    dao_info: DaoInfo,
    token_list_for_address: Table<AccountId, TokenInfo>,
    next_member_id: u16,
    dao_member_list: Table<AccountId, MemberInfo>,
    member_infoes_from_id: Table<u16, MemberInfo>,
    dao_project_list: Table<u16, ProjectInfo>,
    next_project_id: u16,
    dao_task_list: Table<u16, TaskInfo>,
    next_task_id: u16,
    staking_data: Table<AccountId, Stake>,
    stake_deposit_times: Table<AccountId, u64>,
    total_stake: u8,
    staking_duration: u64,
    next_dao_id: u16,
    dao_list: Table<AccountId, DaoInfo>,
    events: Vec<DaoEvent>,
}

/// The views of a sequence of events.
pub open spec fn event_views(events: Seq<DaoEvent>) -> Seq<DaoEventView> {
    events.map_values(|e: DaoEvent| e@)
}

impl View for FelidaeDao {
    type V = DaoView;

    closed spec fn view(&self) -> DaoView {
        DaoView {
            dao_admin: self.dao_admin,
            dao_id: self.dao_id,
            dao_info: self.dao_info@,
            tokens: self.token_list_for_address@,
            next_member_id: self.next_member_id,
            members: self.dao_member_list@,
            member_by_id: self.member_infoes_from_id@,
            projects: self.dao_project_list@,
            next_project_id: self.next_project_id,
            tasks: self.dao_task_list@,
            next_task_id: self.next_task_id,
            stakes: self.staking_data@,
            stake_times: self.stake_deposit_times@,
            total_stake: self.total_stake,
            staking_duration: self.staking_duration,
            next_dao_id: self.next_dao_id,
            daos: self.dao_list@,
            events: event_views(self.events@),
        }
    }
}

impl FelidaeDao {
    /// A new DAO administered by `admin`, with nothing registered.
    pub fn new(
        admin: AccountId,
        dao_name: String,
        website: Option<String>,
        profile: Option<String>,
        description: String,
    ) -> (dao: FelidaeDao)
        ensures
            dao@ == model::initial(
                admin,
                DaoInfo { dao_name, description, website, profile }@,
            ),
    {
        let dao = FelidaeDao {
            dao_admin: admin,
            dao_id: 0,
            dao_info: DaoInfo { dao_name, description, website, profile },
            dao_member_list: Table::new(),
            dao_project_list: Table::new(),
            token_list_for_address: Table::new(),
            next_project_id: 0,
            member_infoes_from_id: Table::new(),
            dao_task_list: Table::new(),
            next_member_id: 0,
            next_task_id: 0,
            staking_data: Table::new(),
            stake_deposit_times: Table::new(),
            total_stake: 0,
            staking_duration: 0,
            dao_list: Table::new(),
            next_dao_id: 0,
            events: Vec::new(),
        };
        assert(event_views(dao.events@) =~= Seq::empty());
        dao
    }

    fn emit(&mut self, e: DaoEvent)
        ensures
            final(self)@ == old(self)@.emit(e@),
    {
        let ghost ev = e@;
        self.events.push(e);
        assert(event_views(self.events@) =~= event_views(old(self).events@).push(ev));
    }

    /// The events emitted since the last drain, oldest first; the queue is
    /// emptied.
    pub fn drain_events(&mut self) -> (drained: Vec<DaoEvent>)
        ensures
            event_views(drained@) == old(self)@.events,
            final(self)@ == (DaoView { events: Seq::empty(), ..old(self)@ }),
    {
        let mut drained = Vec::new();
        std::mem::swap(&mut drained, &mut self.events);
        assert(event_views(self.events@) =~= Seq::empty());
        drained
    }

    /// The DAO's description.
    pub fn get_dao_info(&self) -> (info: DaoInfo)
        ensures
            info@ == self@.dao_info,
    {
        self.dao_info.duplicate()
    }

    fn is_calling_from_dao_manager(&self, caller: AccountId) -> (admin: bool)
        ensures
            admin == (caller == self@.dao_admin),
    {
        caller == self.dao_admin
    }

    /// Does nothing.
    pub fn flip(&mut self)
        ensures
            final(self)@ == old(self)@,
    {
    }

    /// The DAO's administrator.
    pub fn get_admin(&mut self) -> (admin: AccountId)
        ensures
            admin == old(self)@.dao_admin,
            final(self)@ == old(self)@,
    {
        self.dao_admin
    }

    /// Whether `admin` administers the DAO.
    pub fn is_admin(&mut self, admin: AccountId) -> (is: bool)
        ensures
            is == (admin == old(self)@.dao_admin),
            final(self)@ == old(self)@,
    {
        if self.dao_admin == admin {
            return true;
        } else {
            return false;
        }
    }

    /// Makes `member_address` the administrator. Anyone may call it.
    pub fn set_dao_admin(&mut self, member_address: AccountId)
        ensures
            final(self)@ == (DaoView { dao_admin: member_address, ..old(self)@ }),
    {
        self.dao_admin = member_address;
    }

    // ----- members -----

    /// Admits `member_address` under the name `name`, at time `now`.
    pub fn add_member(
        &mut self,
        caller: AccountId,
        dao_address: AccountId,
        member_address: AccountId,
        name: String,
        now: u64,
    ) -> (r: Result<(), Error>)
        requires
            model::add_member_fits(old(self)@, caller, member_address),
        ensures
            (final(self)@, r) == model::add_member(
                old(self)@,
                caller,
                dao_address,
                member_address,
                name@,
                now,
            ),
    {
        if caller != self.dao_admin {
            return Err(Error::ThisFunctionCanBeCalledFromDaoManager);
        }
        if self.dao_member_list.contains(&member_address) {
            return Err(Error::MemberAlreadyExists);
        }
        self.inline_add_member(dao_address, name, member_address, now);
        Ok(())
    }

    fn inline_add_member(
        &mut self,
        dao_address: AccountId,
        name: String,
        member_address: AccountId,
        now: u64,
    )
        requires
            !old(self)@.members.contains_key(member_address),
            old(self)@.next_member_id < u16::MAX,
        ensures
            final(self)@ == model::add_member(
                old(self)@,
                old(self)@.dao_admin,
                dao_address,
                member_address,
                name@,
                now,
            ).0,
    {
        let task_list: Vec<u16> = Vec::new();
        let project_list: Vec<u16> = Vec::new();
        let time_now = timestamp_text(now);
        let id = self.next_member_id;
        let member_info = MemberInfo {
            name: name,
            member_id: id,
            member_status: MemberStatus::Active,
            member_efficiency: 0,
            member_role: MemberRole::Unset,
            start_time: time_now,
            end_time: None,
            task_list,
            project_list,
        };
        assert(member_info@ == model::new_member(name@, id, now));
        self.member_infoes_from_id.insert(id, member_info.duplicate());
        self.dao_member_list.insert(member_address, member_info);
        self.next_member_id = id + 1;
        let next = self.next_member_id;
        self.emit(
            DaoEvent::MemberAdded(
                MemberAdded { dao_address: dao_address, member: member_address, member_id: next },
            ),
        );
    }

    /// The record of the member at `member_address`.
    pub fn get_member_info(&self, member_address: AccountId) -> (r: Result<MemberInfo, Error>)
        ensures
            match r {
                Ok(m) => model::member_info(self@, member_address) == Ok::<_, Error>(m@),
                Err(e) => model::member_info(self@, member_address) == Err::<
                    crate::types::MemberInfoView,
                    _,
                >(e),
            },
    {
        match self.dao_member_list.get(&member_address) {
            Some(value) => Ok(value),
            None => Err(Error::MemberDoesNotExist),
        }
    }

    /// Whether `account` is a member.
    pub fn is_member(&self, account: AccountId) -> (is: bool)
        ensures
            is == self@.is_member(account),
    {
        self.dao_member_list.contains(&account)
    }

    /// Whether `member_address` is a member.
    pub fn _is_member(&self, member_address: AccountId) -> (is: bool)
        ensures
            is == self@.is_member(member_address),
    {
        self.dao_member_list.contains(&member_address)
    }
}

impl FelidaeDao {
    /// Removes the member at `member_address`, under both its address and its id.
    pub fn delete_member(&mut self, caller: AccountId, _dao_address: AccountId, member_address: AccountId) -> (r: Result<(), Error>)
        ensures
            (final(self)@, r) == model::delete_member(old(self)@, caller, member_address),
    {
        if !self.is_calling_from_dao_manager(caller) {
            return Err(Error::ThisFunctionCanBeCalledFromDaoManager);
        }
        self.inline_delete_member(_dao_address, member_address)
    }

    fn inline_delete_member(&mut self, dao_address: AccountId, member_address: AccountId) -> (r: Result<(), Error>)
        ensures
            (final(self)@, r) == model::delete_member(old(self)@, old(self)@.dao_admin, member_address),
    {
        let member_info = match self.dao_member_list.get(&member_address) {
            Some(value) => value,
            None => {
                return Err(Error::MemberDoesNotExist);
            },
        };
        let next_member_id = member_info.member_id;
        self.member_infoes_from_id.remove(&next_member_id);
        self.dao_member_list.remove(&member_address);
        Ok(())
    }

    /// Marks the member at `member_address` terminated at time `now`.
    pub fn terminate_member(
        &mut self,
        caller: AccountId,
        now: u64,
        _dao_address: AccountId,
        member_address: AccountId,
    ) -> (r: Result<(), Error>)
        ensures
            (final(self)@, r) == model::terminate_member(old(self)@, caller, _dao_address, member_address, now),
    {
        if !self.is_calling_from_dao_manager(caller) {
            return Err(Error::ThisFunctionCanBeCalledFromDaoManager);
        }
        self.inline_terminate_member(now, _dao_address, member_address)
    }

    fn inline_terminate_member(&mut self, now: u64, dao_address: AccountId, member_address: AccountId) -> (r: Result<(), Error>)
        ensures
            (final(self)@, r) == model::terminate_member(
                old(self)@,
                old(self)@.dao_admin,
                dao_address,
                member_address,
                now,
            ),
    {
        let mut member_info = match self.dao_member_list.get(&member_address) {
            Some(value) => value,
            None => {
                return Err(Error::MemberDoesNotExist);
            },
        };
        let next_member_id = member_info.member_id;
        let _member_info_ = match self.member_infoes_from_id.get(&next_member_id) {
            Some(value) => value,
            None => {
                return Err(Error::MemberDoesNotExist);
            },
        };
        let ghost s = self@;
        self.dao_member_list.remove(&member_address);
        self.member_infoes_from_id.remove(&next_member_id);
        let time_now = timestamp_text(now);
        member_info.member_status = MemberStatus::Terminated;
        member_info.end_time = Some(time_now);
        let start_time = member_info.start_time.clone();
        let end_time = match &member_info.end_time {
            Some(t) => Some(t.clone()),
            None => None,
        };
        self.dao_member_list.insert(member_address, member_info.duplicate());
        self.member_infoes_from_id.insert(next_member_id, member_info);
        proof {
            assert(s.members.remove(member_address).insert(member_address, member_info@)
                =~= s.members.insert(member_address, member_info@));
            assert(s.member_by_id.remove(next_member_id).insert(next_member_id, member_info@)
                =~= s.member_by_id.insert(next_member_id, member_info@));
        }
        self.emit(
            DaoEvent::MemberTerminated(
                MemberTerminated {
                    dao_address: dao_address,
                    member_address: member_address,
                    start_time: start_time,
                    end_time: end_time,
                },
            ),
        );
        Ok(())
    }

    /// The members by id, in increasing id order.
    pub fn get_member_list(&self, dao_address: AccountId) -> (list: Vec<MemberInfo>)
        ensures
            list@.map_values(|m: MemberInfo| m@) == listed(self@.member_by_id, self@.next_member_id as nat),
    {
        self.member_infoes_from_id.values_below(self.next_member_id)
    }

    /// Gives the member at `member_address` the role `role`.
    pub fn update_member_role(
        &mut self,
        caller: AccountId,
        dao_address: AccountId,
        member_address: AccountId,
        role: MemberRole,
    ) -> (r: Result<(), Error>)
        ensures
            (final(self)@, r) == model::update_member_role(old(self)@, caller, dao_address, member_address, role),
    {
        if !self.is_calling_from_dao_manager(caller) {
            return Err(Error::ThisFunctionCanBeCalledFromDaoManager);
        }
        let mut member_info = match self.dao_member_list.get(&member_address) {
            Some(value) => value,
            None => return Err(Error::MemberDoesNotExist),
        };
        let next_member_id = member_info.member_id;
        let _member_info_ = match self.member_infoes_from_id.get(&next_member_id) {
            Some(value) => value,
            None => {
                return Err(Error::MemberDoesNotExist);
            },
        };
        member_info.member_role = role;
        self.dao_member_list.insert(member_address, member_info.duplicate());
        self.member_infoes_from_id.insert(next_member_id, member_info);
        self.emit(
            DaoEvent::MemberRoleUpdated(
                MemberRoleUpdated {
                    dao_address: dao_address,
                    member_address: member_address,
                    new_role: role,
                },
            ),
        );
        Ok(())
    }
}

impl FelidaeDao {
    // ----- tokens -----

    /// Registers the token at `token_address`.
    pub fn add_dao_token(
        &mut self,
        caller: AccountId,
        dao_address: AccountId,
        token_type: TokenType,
        token_address: AccountId,
    ) -> (r: Result<(), Error>)
        ensures
            (final(self)@, r) == model::add_dao_token(old(self)@, caller, dao_address, token_type, token_address),
    {
        if !self.is_calling_from_dao_manager(caller) {
            return Err(Error::ThisFunctionCanBeCalledFromDaoManager);
        }
        let token_info = TokenInfo { token_type: token_type, token_address: token_address };
        self.token_list_for_address.insert(token_address, token_info.duplicate());
        self.emit(
            DaoEvent::GovernanceTokenAdded(
                GovernanceTokenAdded { dao_address: dao_address, token_address: token_address },
            ),
        );
        Ok(())
    }

    /// The token registered at `token_address`, as a list of none or one.
    pub fn get_token_list(&self, token_address: AccountId) -> (list: Vec<TokenInfo>)
        ensures
            list@ == model::token_list(self@, token_address),
    {
        let mut result: Vec<TokenInfo> = Vec::new();
        match self.token_list_for_address.get(&token_address) {
            Some(value) => result.push(value),
            None => (),
        }
        assert(result@ =~= model::token_list(self@, token_address));
        result
    }

    /// Has the token contract at `token_address` send `amount` to
    /// `to_address` and announces it. `call_token` makes that call and
    /// answers whether the token contract accepted it; it is called only when
    /// the caller is the administrator and the token is registered.
    pub fn distribute_governance_token<F: FnOnce(AccountId, AccountId, u128) -> bool>(
        &mut self,
        caller: AccountId,
        token_address: AccountId,
        to_address: AccountId,
        amount: u128,
        call_token: F,
    ) -> (r: Result<(), Error>)
        requires
            call_token.requires((token_address, to_address, amount)),
        ensures
            exists|delivered: bool|
                (model::distribution_refusal(old(self)@, caller, token_address) is None
                    ==> call_token.ensures((token_address, to_address, amount), delivered))
                    && (final(self)@, r) == #[trigger] model::distribute(
                    old(self)@,
                    caller,
                    token_address,
                    to_address,
                    amount,
                    delivered,
                    true,
                ),
    {
        if !self.is_calling_from_dao_manager(caller) {
            assert(model::distribute(old(self)@, caller, token_address, to_address, amount, false, true).1 is Err);
            return Err(Error::ThisFunctionCanBeCalledFromDaoManager);
        }
        if !self.token_list_for_address.contains(&token_address) {
            assert(model::distribute(old(self)@, caller, token_address, to_address, amount, false, true).1 is Err);
            return Err(Error::TheTokenDoesNotExist);
        }
        let delivered = call_token(token_address, to_address, amount);
        if delivered {
            self.emit(
                DaoEvent::Transferred(Transferred { from: None, to: to_address, value: amount }),
            );
            assert(model::distribute(old(self)@, caller, token_address, to_address, amount, true, true).1 is Ok);
            return Ok(());
        } else {
            assert(model::distribute(old(self)@, caller, token_address, to_address, amount, false, true).1 is Err);
            return Err(Error::DistributionIsFailure);
        }
    }

    /// As `distribute_governance_token`, without announcing the transfer.
    pub fn distribute_reward<F: FnOnce(AccountId, AccountId, u128) -> bool>(
        &mut self,
        caller: AccountId,
        token_address: AccountId,
        to_address: AccountId,
        amount: u128,
        call_token: F,
    ) -> (r: Result<(), Error>)
        requires
            call_token.requires((token_address, to_address, amount)),
        ensures
            exists|delivered: bool|
                (model::distribution_refusal(old(self)@, caller, token_address) is None
                    ==> call_token.ensures((token_address, to_address, amount), delivered))
                    && (final(self)@, r) == #[trigger] model::distribute(
                    old(self)@,
                    caller,
                    token_address,
                    to_address,
                    amount,
                    delivered,
                    false,
                ),
    {
        if !self.is_calling_from_dao_manager(caller) {
            assert(model::distribute(old(self)@, caller, token_address, to_address, amount, false, false).1 is Err);
            return Err(Error::ThisFunctionCanBeCalledFromDaoManager);
        }
        if !self.token_list_for_address.contains(&token_address) {
            assert(model::distribute(old(self)@, caller, token_address, to_address, amount, false, false).1 is Err);
            return Err(Error::TheTokenDoesNotExist);
        }
        let delivered = call_token(token_address, to_address, amount);
        if delivered {
            assert(model::distribute(old(self)@, caller, token_address, to_address, amount, true, false).1 is Ok);
            return Ok(());
        } else {
            assert(model::distribute(old(self)@, caller, token_address, to_address, amount, false, false).1 is Err);
            return Err(Error::DistributionIsFailure);
        }
    }

    /// Always succeeds and changes nothing.
    pub fn calculate_efficiency(&mut self, token_address: AccountId, to_address: AccountId, amount: u128) -> (r: Result<(), Error>)
        ensures
            r == Ok::<(), Error>(()),
            final(self)@ == old(self)@,
    {
        Ok(())
    }

    // ----- projects -----

    /// Opens a project named `name`, created by the caller and assigned to
    /// `assigned_to`, both of whom must be members; its first sprint runs
    /// seven days from `now`.
    pub fn create_project(
        &mut self,
        caller: AccountId,
        now: u64,
        name: String,
        dao_address: AccountId,
        assigned_to: AccountId,
    ) -> (r: Result<(), Error>)
        requires
            model::create_project_fits(old(self)@, caller, assigned_to, now),
        ensures
            (final(self)@, r) == model::create_project(old(self)@, caller, now, name@, dao_address, assigned_to),
    {
        let creator = caller;
        if !self._is_member(creator) {
            return Err(Error::NotAMember);
        }
        if !self._is_member(assigned_to) {
            return Err(Error::NotAMember);
        }
        let task_list: Vec<u16> = Vec::new();
        let timestamp_seventh_day = now + (7 * model::SECONDS_PER_DAY);
        let id = self.next_project_id;
        let new_sprint = Sprint {
            project_id: id,
            start_date: timestamp_text(now),
            end_date: timestamp_text(timestamp_seventh_day),
            action: 0,
        };
        let project_info = ProjectInfo {
            name: name,
            project_id: id,
            creator: creator,
            project_status: ProjectStatus::Active,
            assigned_to: assigned_to,
            start_time: timestamp_text(now),
            end_time: None,
            task_list: task_list,
            sprint: new_sprint,
        };
        assert(project_info@ == model::new_project(id, name@, caller, assigned_to, now));
        let mut member_info = match self.dao_member_list.get(&assigned_to) {
            Some(value) => value,
            None => {
                return Err(Error::MemberDoesNotExist);
            },
        };
        member_info.project_list.push(id);
        let start_time = project_info.start_time.clone();
        self.dao_project_list.insert(id, project_info);
        self.next_project_id = id + 1;
        self.emit(
            DaoEvent::ProjectCreated(
                ProjectCreated {
                    dao_address: dao_address,
                    creator: creator,
                    project_id: id,
                    assigned_to: assigned_to,
                    start_time: start_time,
                },
            ),
        );
        Ok(())
    }

    /// The project with id `project_id`.
    pub fn get_project_info(&mut self, project_id: u16) -> (r: Result<ProjectInfo, Error>)
        ensures
            final(self)@ == old(self)@,
            match r {
                Ok(p) => model::project_info(old(self)@, project_id) == Ok::<_, Error>(p@),
                Err(e) => model::project_info(old(self)@, project_id) == Err::<
                    crate::types::ProjectInfoView,
                    _,
                >(e),
            },
    {
        match self.dao_project_list.get(&project_id) {
            Some(value) => Ok(value),
            None => Err(Error::ProjectDoesNotExist),
        }
    }

    /// Sets the status of a project the caller created; completing it stamps
    /// its end time.
    pub fn update_project_status(
        &mut self,
        caller: AccountId,
        now: u64,
        dao_address: AccountId,
        project_id: u16,
        status: ProjectStatus,
    ) -> (r: Result<(), Error>)
        ensures
            (final(self)@, r) == model::update_project_status(old(self)@, caller, now, project_id, status),
    {
        let creator = caller;
        let mut project_info = match self.dao_project_list.get(&project_id) {
            Some(value) => value,
            None => return Err(Error::ProjectDoesNotExist),
        };
        if project_info.creator != creator {
            return Err(Error::NotACreator);
        }
        let project_id = project_info.project_id;
        let _project_info_ = match self.dao_project_list.get(&project_id) {
            Some(value) => value,
            None => {
                return Err(Error::ProjectDoesNotExist);
            },
        };
        if status == ProjectStatus::Completed {
            let time_now = timestamp_text(now);
            project_info.end_time = Some(time_now);
        }
        project_info.project_status = status;
        let new_status = project_info.project_status;
        self.dao_project_list.insert(project_id, project_info);
        self.emit(
            DaoEvent::ProjectStatusUpdated(
                ProjectStatusUpdated { project_id: project_id, status: new_status },
            ),
        );
        Ok(())
    }

    /// Completes a project the caller created, stamping its end time.
    pub fn close_project(&mut self, caller: AccountId, now: u64, dao_address: AccountId, project_id: u16) -> (r: Result<(), Error>)
        ensures
            (final(self)@, r) == model::close_project(old(self)@, caller, now, project_id),
    {
        let creator = caller;
        let mut project_info = match self.dao_project_list.get(&project_id) {
            Some(value) => value,
            None => return Err(Error::ProjectDoesNotExist),
        };
        if project_info.creator != creator {
            return Err(Error::NotACreator);
        }
        let project_id = project_info.project_id;
        let _project_info_ = match self.dao_project_list.get(&project_id) {
            Some(value) => value,
            None => {
                return Err(Error::ProjectDoesNotExist);
            },
        };
        project_info.project_status = ProjectStatus::Completed;
        let time_now = timestamp_text(now);
        project_info.end_time = Some(time_now);
        let start_time = project_info.start_time.clone();
        let end_time = match &project_info.end_time {
            Some(t) => Some(t.clone()),
            None => None,
        };
        self.dao_project_list.insert(project_id, project_info);
        self.emit(
            DaoEvent::ProjectCompleted(
                ProjectCompleted { project_id: project_id, start_time: start_time, end_time: end_time },
            ),
        );
        Ok(())
    }

    /// The projects by id, in increasing id order.
    pub fn get_project_list(&self) -> (list: Vec<ProjectInfo>)
        ensures
            list@.map_values(|p: ProjectInfo| p@) == listed(self@.projects, self@.next_project_id as nat),
    {
        self.dao_project_list.values_below(self.next_project_id)
    }

    /// Replaces the sprint of project `project_id`.
    pub fn create_sprint(&mut self, project_id: u16, start_date: String, end_date: String) -> (r: Result<(), Error>)
        ensures
            (final(self)@, r) == model::create_sprint(old(self)@, project_id, start_date@, end_date@),
    {
        let new_sprint = Sprint {
            project_id: project_id,
            start_date: start_date,
            end_date: end_date,
            action: 0,
        };
        let mut project_info_ = match self.dao_project_list.get(&project_id) {
            Some(value) => value,
            None => {
                return Err(Error::ProjectDoesNotExist);
            },
        };
        project_info_.sprint = new_sprint;
        let event = SprintAdded {
            project_id: project_id,
            start_date: project_info_.sprint.start_date.clone(),
            end_date: project_info_.sprint.end_date.clone(),
        };
        self.dao_project_list.insert(project_id, project_info_);
        self.emit(DaoEvent::SprintAdded(event));
        Ok(())
    }
}

impl FelidaeDao {
    // ----- tasks -----

    /// Opens a task of project `project_id`, created by the caller and
    /// assigned to `assigned_to`, both of whom must be members, and lists it
    /// in the project.
    pub fn create_task(
        &mut self,
        caller: AccountId,
        now: u64,
        name: String,
        dao_address: AccountId,
        assigned_to: AccountId,
        task_type: TaskType,
        project_id: u16,
    ) -> (r: Result<(), Error>)
        requires
            model::create_task_fits(old(self)@, caller, assigned_to, project_id),
        ensures
            (final(self)@, r) == model::create_task(
                old(self)@,
                caller,
                now,
                name@,
                dao_address,
                assigned_to,
                task_type,
                project_id,
            ),
    {
        let creator = caller;
        if !self._is_member(creator) {
            return Err(Error::NotAMember);
        }
        if !self._is_member(assigned_to) {
            return Err(Error::NotAMember);
        }
        let mut project_info = match self.dao_project_list.get(&project_id) {
            Some(value) => value,
            None => return Err(Error::ProjectDoesNotExist),
        };
        let id = self.next_task_id;
        let task_info = TaskInfo {
            name: name,
            task_id: id,
            project_id: project_id,
            creator: creator,
            task_status: TaskStatus::ToDO,
            assigned_to: assigned_to,
            start_time: timestamp_text(now),
            task_type: task_type,
            end_time: None,
            review: None,
            total_time_logged_in: None,
        };
        assert(task_info@ == model::new_task(id, project_id, name@, caller, assigned_to, task_type, now));
        project_info.task_list.push(id);
        let mut member_info = match self.dao_member_list.get(&assigned_to) {
            Some(value) => value,
            None => {
                return Err(Error::MemberDoesNotExist);
            },
        };
        member_info.task_list.push(id);
        let start_time = task_info.start_time.clone();
        self.dao_task_list.insert(id, task_info);
        self.next_task_id = id + 1;
        let stored_id = project_info.project_id;
        self.dao_project_list.insert(stored_id, project_info);
        self.emit(
            DaoEvent::TaskCreated(
                TaskCreated {
                    task_id: id,
                    project_id: project_id,
                    creator: creator,
                    assigned_to: assigned_to,
                    task_type: task_type,
                    start_time: start_time,
                },
            ),
        );
        Ok(())
    }

    /// Records an opinion on task `task_id`, in place of the one it had, if
    /// any; the caller and the member giving the opinion must be members.
    pub fn create_review(
        &mut self,
        caller: AccountId,
        dao_address: AccountId,
        reviewer: AccountId,
        task_id: u16,
        project_id: u16,
        review_discription: Vec<u8>,
        opinion: ReviewOpinion,
    ) -> (r: Result<(), Error>)
        ensures
            (final(self)@, r) == model::create_review(
                old(self)@,
                caller,
                reviewer,
                task_id,
                project_id,
                review_discription@,
                opinion,
            ),
    {
        let creator = caller;
        if !self._is_member(creator) {
            return Err(Error::NotAMember);
        }
        if !self._is_member(reviewer) {
            return Err(Error::NotAMember);
        }
        let _project_info = match self.dao_project_list.get(&project_id) {
            Some(value) => value,
            None => return Err(Error::ProjectDoesNotExist),
        };
        let mut task_info = match self.dao_task_list.get(&task_id) {
            Some(value) => value,
            None => return Err(Error::TaskDoesNotExist),
        };
        let review = ReviewRecord { who: reviewer, meta: review_discription, option: opinion };
        let review_status = ReviewStatus { records: review };
        task_info.review = Some(review_status);
        self.dao_task_list.insert(task_id, task_info);
        Ok(())
    }

    /// Sets the status of a task the caller both created and is assigned;
    /// completing it stamps its end time.
    pub fn update_task_status(
        &mut self,
        caller: AccountId,
        now: u64,
        dao_address: AccountId,
        task_id: u16,
        task_status: TaskStatus,
    ) -> (r: Result<(), Error>)
        ensures
            (final(self)@, r) == model::update_task_status(old(self)@, caller, now, task_id, task_status),
    {
        let creator = caller;
        if !self._is_member(creator) {
            return Err(Error::NotAMember);
        }
        let mut task_info = match self.dao_task_list.get(&task_id) {
            Some(value) => value,
            None => return Err(Error::TaskDoesNotExist),
        };
        if task_info.creator != creator || task_info.assigned_to != creator {
            return Err(Error::NotaTaskAuthority);
        }
        if task_status == TaskStatus::Completed {
            let time_now = timestamp_text(now);
            task_info.end_time = Some(time_now);
        }
        task_info.task_status = task_status;
        self.dao_task_list.insert(task_id, task_info);
        Ok(())
    }

    /// The task with id `task_id`.
    pub fn get_task_info(&mut self, task_id: u16) -> (r: Result<TaskInfo, Error>)
        ensures
            final(self)@ == old(self)@,
            match r {
                Ok(t) => model::task_info(old(self)@, task_id) == Ok::<_, Error>(t@),
                Err(e) => model::task_info(old(self)@, task_id) == Err::<
                    crate::types::TaskInfoView,
                    _,
                >(e),
            },
    {
        match self.dao_task_list.get(&task_id) {
            Some(value) => Ok(value),
            None => Err(Error::TaskDoesNotExist),
        }
    }

    /// Completes a task the caller created, stamping its end time.
    pub fn close_task(&mut self, caller: AccountId, now: u64, dao_address: AccountId, task_id: u16) -> (r: Result<(), Error>)
        ensures
            (final(self)@, r) == model::close_task(old(self)@, caller, now, task_id),
    {
        let creator = caller;
        let mut task_info = match self.dao_task_list.get(&task_id) {
            Some(value) => value,
            None => return Err(Error::ProjectDoesNotExist),
        };
        if task_info.creator != creator {
            return Err(Error::NotACreator);
        }
        let project_id = task_info.project_id;
        let _project_info_ = match self.dao_project_list.get(&project_id) {
            Some(value) => value,
            None => {
                return Err(Error::ProjectDoesNotExist);
            },
        };
        task_info.task_status = TaskStatus::Completed;
        let time_now = timestamp_text(now);
        task_info.end_time = Some(time_now);
        self.dao_task_list.insert(task_id, task_info);
        Ok(())
    }

    /// All tasks by id, in increasing id order, whatever project they belong to.
    pub fn get_task_list(&self, dao_address: AccountId, project_id: u16) -> (list: Vec<TaskInfo>)
        ensures
            list@.map_values(|t: TaskInfo| t@) == listed(self@.tasks, self@.next_task_id as nat),
    {
        self.dao_task_list.values_below(self.next_task_id)
    }

    /// Adds `time` to the time logged on a task assigned to the caller.
    pub fn time_log(
        &mut self,
        caller: AccountId,
        dao_address: AccountId,
        task_id: u16,
        project_id: u16,
        time: u16,
    ) -> (r: Result<(), Error>)
        requires
            model::time_log_fits(old(self)@, caller, task_id, time),
        ensures
            (final(self)@, r) == model::time_log(old(self)@, caller, task_id, time),
    {
        let mut task_info = match self.dao_task_list.get(&task_id) {
            Some(value) => value,
            None => return Err(Error::TaskDoesNotExist),
        };
        if task_info.assigned_to != caller {
            return Err(Error::NotaTaskAuthority);
        }
        task_info.total_time_logged_in = match task_info.total_time_logged_in {
            Some(data) => { Some(data + time) },
            None => { Some(0 + time) },
        };
        self.dao_task_list.insert(task_id, task_info);
        Ok(())
    }
}

/// The units a deposit of `amount` adds to the stake total.
fn stake_units_of(amount: u128) -> (units: u8)
    ensures
        units == model::stake_units(amount),
{
    let whole = amount / 1000000000000;
    assert((whole as u8) == whole % 256) by (bit_vector);
    whole as u8
}

/// The view of a stake lookup's result.
pub open spec fn stake_result(r: Result<Stake, Error>) -> Result<StakeView, Error> {
    match r {
        Ok(st) => Ok(st@),
        Err(e) => Err(e),
    }
}

impl FelidaeDao {
    // ----- staking -----

    /// Sets the stake total and the staking duration; only the administrator may.
    pub fn set_stake_data(&mut self, caller: AccountId, interest_rate: u8, staking_duration: u64) -> (r: Result<(), Error>)
        ensures
            (final(self)@, r) == model::set_stake_data(old(self)@, caller, interest_rate, staking_duration),
    {
        if caller != self.dao_admin {
            return Err(Error::NotAAdmin);
        }
        self.total_stake = interest_rate;
        self.staking_duration = staking_duration;
        Ok(())
    }

    /// The stake of `account_id`, if it has one.
    pub fn get_stake_for_account(&self, account_id: AccountId) -> (stake: Option<Stake>)
        ensures
            match stake {
                Some(st) => self@.stakes.contains_key(account_id) && st@ == self@.stakes[account_id],
                None => !self@.stakes.contains_key(account_id),
            },
    {
        self.staking_data.get(&account_id)
    }

    /// The stake of `account`, or `AccountNotExist`.
    pub fn get_account_if_exists(&self, account: &AccountId) -> (r: Result<Stake, Error>)
        ensures
            stake_result(r) == model::account_stake(self@, *account),
    {
        if let Some(lock) = self.staking_data.get(account) {
            Ok(lock)
        } else {
            Err(Error::AccountNotExist)
        }
    }

    /// Whether the contract's balance covers `amount`.
    pub fn check_sufficient_balance(&self, contract_balance: u128, amount: u128) -> (r: Result<(), Error>)
        ensures
            r == (if contract_balance < amount {
                Err::<(), Error>(Error::InsufficientContractBalance)
            } else {
                Ok(())
            }),
    {
        if contract_balance < amount {
            Err(Error::InsufficientContractBalance)
        } else {
            Ok(())
        }
    }

    /// Pays `balance` to `account` out of a contract holding
    /// `contract_balance`. `transfer` makes the chain transfer and answers
    /// whether it went through; it is called only when the balance covers
    /// the payment.
    pub fn transfer_balance<F: FnOnce(AccountId, u128) -> bool>(
        &mut self,
        contract_balance: u128,
        account: &AccountId,
        balance: u128,
        transfer: F,
    ) -> (r: Result<(), Error>)
        requires
            transfer.requires((*account, balance)),
        ensures
            final(self)@ == old(self)@,
            contract_balance < balance ==> r == model::payment(contract_balance, balance, false),
            contract_balance >= balance ==> (transfer.ensures((*account, balance), true) && r
                == model::payment(contract_balance, balance, true)) || (transfer.ensures(
                (*account, balance),
                false,
            ) && r == model::payment(contract_balance, balance, false)),
    {
        match self.check_sufficient_balance(contract_balance, balance) {
            Err(e) => return Err(e),
            Ok(()) => {},
        }
        if !transfer(*account, balance) {
            Err(Error::TransferFailed)
        } else {
            Ok(())
        }
    }

    /// Pays the caller's stake back, with no interest, and forgets it.
    pub fn early_withdraw<F: FnOnce(AccountId, u128) -> bool>(
        &mut self,
        caller: AccountId,
        contract_balance: u128,
        transfer: F,
    ) -> (r: Result<Stake, Error>)
        requires
            old(self)@.stakes.contains_key(caller) ==> transfer.requires(
                (caller, old(self)@.stakes[caller].staked_amount),
            ),
        ensures
            exists|delivered: bool|
                (old(self)@.stakes.contains_key(caller) && contract_balance
                    >= old(self)@.stakes[caller].staked_amount ==> transfer.ensures(
                    (caller, old(self)@.stakes[caller].staked_amount),
                    delivered,
                )) && (final(self)@, stake_result(r)) == #[trigger] model::early_withdraw(
                    old(self)@,
                    caller,
                    contract_balance,
                    delivered,
                ),
    {
        let account = caller;
        let stake = match self.get_account_if_exists(&account) {
            Ok(st) => st,
            Err(e) => {
                assert(model::early_withdraw(old(self)@, caller, contract_balance, false).1 is Err);
                return Err(e);
            },
        };
        let total_amount = stake.staked_amount;
        match self.transfer_balance(contract_balance, &account, total_amount, transfer) {
            Err(e) => {
                assert(model::early_withdraw(old(self)@, caller, contract_balance, false).1 is Err);
                return Err(e);
            },
            Ok(()) => {},
        }
        let copy = stake.duplicate();
        self.emit(DaoEvent::WithdrawSuccessful(WithdrawSuccessful { staker: account, stake: copy }));
        self.staking_data.remove(&account);
        self.stake_deposit_times.remove(&account);
        assert(model::early_withdraw(old(self)@, caller, contract_balance, true).1 is Ok);
        Ok(stake)
    }

    /// Whether `account` is not the contract's own account `contract_account`.
    pub fn check_not_self(&self, contract_account: AccountId, account: &AccountId) -> (other: bool)
        ensures
            other == (contract_account != *account),
    {
        contract_account != *account
    }

    /// Stakes `amount` for the caller, a member without a stake other than
    /// the contract's own account `contract_account`, if `amount` is at least
    /// `MIN_DEPOSIT_BALANCE`; the deposit time is kept, and the stake total
    /// grows by the deposit's whole `STAKE_UNIT`s, modulo 256.
    pub fn add_stake(&mut self, caller: AccountId, contract_account: AccountId, now: u64, amount: u128) -> (r: Result<(), Error>)
        requires
            model::add_stake_fits(old(self)@, caller, contract_account, amount),
        ensures
            (final(self)@, r) == model::add_stake(old(self)@, caller, contract_account, now, amount),
    {
        if self.staking_data.contains(&caller) {
            return Err(Error::AlreadyStaked);
        }
        if !self.dao_member_list.contains(&caller) {
            if !self.dao_list.contains(&caller) {
                return Err(Error::NotAMember);
            }
            return Err(Error::NotAMember);
        }
        if !self.check_not_self(contract_account, &caller) {
            return Err(Error::SelfStakingNotAllowed);
        }
        if amount < model::MIN_DEPOSIT_BALANCE {
            return Err(Error::DepositNotSufficient);
        }
        self.total_stake = self.total_stake + stake_units_of(amount);
        let time_now = timestamp_text(now);
        let stake = Stake { staked_amount: amount, deposit_time: time_now, release_time: None };
        self.staking_data.insert(caller, stake.duplicate());
        self.stake_deposit_times.insert(caller, now);
        self.emit(DaoEvent::DepositSuccessful(DepositSuccessful { staker: caller, stake: stake }));
        Ok(())
    }

    /// Pays a member's stake back once its staking period is over, and
    /// forgets it, stamping its release time; the stake total drops by the
    /// stake's amount modulo 256.
    pub fn redeem_stake<F: FnOnce(AccountId, u128) -> bool>(
        &mut self,
        caller: AccountId,
        now: u64,
        contract_balance: u128,
        transfer: F,
    ) -> (r: Result<(), Error>)
        requires
            model::redeem_stake_fits(old(self)@, caller, now, contract_balance),
            old(self)@.stakes.contains_key(caller) ==> transfer.requires(
                (caller, old(self)@.stakes[caller].staked_amount),
            ),
        ensures
            exists|delivered: bool|
                (model::redeem_refusal(old(self)@, caller, now) is None && contract_balance
                    >= old(self)@.stakes[caller].staked_amount ==> transfer.ensures(
                    (caller, old(self)@.stakes[caller].staked_amount),
                    delivered,
                )) && (final(self)@, r) == #[trigger] model::redeem_stake(
                    old(self)@,
                    caller,
                    now,
                    contract_balance,
                    delivered,
                ),
    {
        if !self.staking_data.contains(&caller) {
            assert(model::redeem_stake(old(self)@, caller, now, contract_balance, false).1 is Err);
            return Err(Error::NotStaked);
        }
        if !self.dao_member_list.contains(&caller) {
            assert(model::redeem_stake(old(self)@, caller, now, contract_balance, false).1 is Err);
            if !self.dao_list.contains(&caller) {
                return Err(Error::NotAMember);
            }
            return Err(Error::NotAMember);
        }
        match self.stake_deposit_times.get(&caller) {
            Some(deposited) => {
                if now < deposited || now - deposited < self.staking_duration {
                    assert(model::redeem_stake(old(self)@, caller, now, contract_balance, false).1 is Err);
                    return Err(Error::RedeemDurationNotReached);
                }
            },
            None => {},
        }
        let mut your_stake = match self.staking_data.get(&caller) {
            Some(value) => value,
            None => {
                return Err(Error::MemberDoesNotExist);
            },
        };
        let staked_amount = your_stake.staked_amount;
        match self.transfer_balance(contract_balance, &caller, staked_amount, transfer) {
            Err(e) => {
                assert(model::redeem_stake(old(self)@, caller, now, contract_balance, false).1 is Err);
                return Err(e);
            },
            Ok(()) => {},
        }
        let time_now = timestamp_text(now);
        your_stake.release_time = Some(time_now);
        assert((staked_amount as u8) == staked_amount % 256) by (bit_vector);
        self.total_stake = self.total_stake - staked_amount as u8;
        self.staking_data.remove(&caller);
        self.stake_deposit_times.remove(&caller);
        self.emit(DaoEvent::RedeemSuccessful(RedeemSuccessful { staker: caller, stake: your_stake }));
        assert(model::redeem_stake(old(self)@, caller, now, contract_balance, true).1 is Ok);
        Ok(())
    }

    /// The stake of `member_address`, or `NotStaked`.
    pub fn get_stake_info(&mut self, member_address: AccountId) -> (r: Result<Stake, Error>)
        ensures
            final(self)@ == old(self)@,
            stake_result(r) == model::stake_info(old(self)@, member_address),
    {
        match self.staking_data.get(&member_address) {
            Some(value) => Ok(value),
            None => Err(Error::NotStaked),
        }
    }

    /// The caller's share of the stake total, in percent, as text: its
    /// stake's amount modulo 256 over the total.
    pub fn get_ownership(&mut self, caller: AccountId) -> (r: Result<String, Error>)
        requires
            model::ownership_fits(old(self)@, caller),
        ensures
            final(self)@ == old(self)@,
            match r {
                Ok(t) => model::ownership(old(self)@, caller) == Ok::<_, Error>(t@),
                Err(e) => model::ownership(old(self)@, caller) == Err::<Seq<char>, _>(e),
            },
    {
        let your_stake = match self.staking_data.get(&caller) {
            Some(value) => value,
            None => return Err(Error::NotStaked),
        };
        let staked_amount = your_stake.staked_amount;
        assert((staked_amount as u8) == staked_amount % 256) by (bit_vector);
        let res = self.calculate_ownership(staked_amount as u8, self.total_stake);
        Ok(res)
    }

    /// `a / b * 100` as `FixedI128<U4>` text; `b` must not be zero.
    pub fn calculate_ownership(&self, a: u8, b: u8) -> (text: String)
        requires
            b > 0,
        ensures
            text@ == fixed_display(ownership_bits(a, b) as i128),
    {
        ownership_text(a, b)
    }

    /// Adds `amount_` to the stake total and computes the new share of
    /// `amount_` in it, which it discards.
    pub fn calculate_ownership_test(&mut self, amount_: u8)
        requires
            0 < old(self)@.total_stake + amount_ <= u8::MAX,
        ensures
            final(self)@ == (DaoView { total_stake: (old(self)@.total_stake + amount_) as u8, ..old(self)@ }),
    {
        self.total_stake = self.total_stake + amount_;
        let _share = ownership_text(amount_, self.total_stake);
    }

    // ----- partner DAOs -----

    /// Registers the DAO at `dao_address` as a partner.
    pub fn dao_as_member(&mut self, caller: AccountId, dao_address: AccountId, dao_info: DaoInfo) -> (r: Result<(), Error>)
        requires
            model::dao_as_member_fits(old(self)@, caller, dao_address),
        ensures
            (final(self)@, r) == model::dao_as_member(old(self)@, caller, dao_address, dao_info@),
    {
        if caller != self.dao_admin {
            return Err(Error::ThisFunctionCanBeCalledFromDaoManager);
        }
        if self.dao_list.contains(&dao_address) {
            return Err(Error::MemberAlreadyExists);
        }
        self.dao_list.insert(dao_address, dao_info.duplicate());
        self.next_dao_id = self.next_dao_id + 1;
        Ok(())
    }

    /// The description of the partner DAO at `dao_address`.
    pub fn get_dao_info_with_address(&self, dao_address: AccountId) -> (r: Result<DaoInfo, Error>)
        ensures
            match r {
                Ok(i) => model::dao_info_with_address(self@, dao_address) == Ok::<_, Error>(i@),
                Err(e) => model::dao_info_with_address(self@, dao_address) == Err::<
                    crate::types::DaoInfoView,
                    _,
                >(e),
            },
    {
        match self.dao_list.get(&dao_address) {
            Some(value) => Ok(value),
            None => Err(Error::MemberDoesNotExist),
        }
    }
}

impl FelidaeDao {
    // ----- counters, for callers that check the ranges the operations require -----

    /// The id the next admitted member gets.
    pub fn next_member_id(&self) -> (id: u16)
        ensures
            id == self@.next_member_id,
    {
        self.next_member_id
    }

    /// The id the next opened project gets.
    pub fn next_project_id(&self) -> (id: u16)
        ensures
            id == self@.next_project_id,
    {
        self.next_project_id
    }

    /// The id the next opened task gets.
    pub fn next_task_id(&self) -> (id: u16)
        ensures
            id == self@.next_task_id,
    {
        self.next_task_id
    }

    /// The count of partner DAOs registered.
    pub fn next_dao_id(&self) -> (id: u16)
        ensures
            id == self@.next_dao_id,
    {
        self.next_dao_id
    }

    /// The block time at which `account` deposited its stake, if it has one.
    pub fn stake_deposit_time(&self, account: AccountId) -> (time: Option<u64>)
        ensures
            match time {
                Some(t) => self@.stake_times.contains_key(account) && t == self@.stake_times[account],
                None => !self@.stake_times.contains_key(account),
            },
    {
        self.stake_deposit_times.get(&account)
    }

    /// How long a stake is held before it may be redeemed.
    pub fn staking_duration(&self) -> (duration: u64)
        ensures
            duration == self@.staking_duration,
    {
        self.staking_duration
    }

    /// The stake total.
    pub fn total_stake(&self) -> (total: u8)
        ensures
            total == self@.total_stake,
    {
        self.total_stake
    }
}

} // verus!
