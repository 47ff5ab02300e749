use vstd::prelude::*;

use crate::address::Address;
use crate::bytes::copy_bytes;
use crate::context::CallContext;
use crate::error::ContractError;
use crate::registry::Registry;

verus! {

/// A stored project.
#[derive(Debug)]
pub struct Project {
    pub id: u64,
    pub owner: Address,
    pub name: Vec<u8>,
    pub description: Vec<u8>,
    pub project_type: Vec<u8>,
    /// Structured configuration, kept as opaque bytes.
    pub config: Vec<u8>,
    /// Free-form status text, `DRAFT` at creation.
    pub status: Vec<u8>,
    pub created_at: u64,
    pub updated_at: u64,
}

/// The mathematical content of a [`Project`].
pub struct ProjectModel {
    pub id: u64,
    pub owner: Seq<u8>,
    pub name: Seq<u8>,
    pub description: Seq<u8>,
    pub project_type: Seq<u8>,
    pub config: Seq<u8>,
    pub status: Seq<u8>,
    pub created_at: u64,
    pub updated_at: u64,
}

impl View for Project {
    type V = ProjectModel;

    open spec fn view(&self) -> ProjectModel {
        ProjectModel {
            id: self.id,
            owner: self.owner@,
            name: self.name@,
            description: self.description@,
            project_type: self.project_type@,
            config: self.config@,
            status: self.status@,
            created_at: self.created_at,
            updated_at: self.updated_at,
        }
    }
}

impl Project {
    /// A copy of this project.
    pub fn duplicate(&self) -> (r: Project)
        ensures
            r@ == self@,
    {
        Project {
            id: self.id,
            owner: self.owner,
            name: copy_bytes(&self.name),
            description: copy_bytes(&self.description),
            project_type: copy_bytes(&self.project_type),
            config: copy_bytes(&self.config),
            status: copy_bytes(&self.status),
            created_at: self.created_at,
            updated_at: self.updated_at,
        }
    }
}

/// The status text of a newly created project: `DRAFT`.
pub open spec fn draft_status() -> Seq<u8> {
    seq![68u8, 82u8, 65u8, 70u8, 84u8]
}

fn draft_status_bytes() -> (r: Vec<u8>)
    ensures
        r@ == draft_status(),
{
    let mut r: Vec<u8> = Vec::new();
    r.push(68u8);
    r.push(82u8);
    r.push(65u8);
    r.push(70u8);
    r.push(84u8);
    assert(r@ =~= draft_status());
    r
}

/// The record a project creation stores.
pub open spec fn created_project(
    id: u64,
    ctx: CallContext,
    name: Seq<u8>,
    description: Seq<u8>,
    project_type: Seq<u8>,
    config: Seq<u8>,
) -> ProjectModel {
    ProjectModel {
        id,
        owner: ctx.caller@,
        name,
        description,
        project_type,
        config,
        status: draft_status(),
        created_at: ctx.block_timestamp,
        updated_at: ctx.block_timestamp,
    }
}

/// The ids of the projects in `projects` owned by `user`, in creation order.
pub open spec fn owned_ids(projects: Seq<ProjectModel>, user: Seq<u8>) -> Seq<u64>
    decreases projects.len(),
{
    if projects.len() == 0 {
        Seq::empty()
    } else {
        let rest = owned_ids(projects.drop_last(), user);
        if projects.last().owner == user {
            rest.push(projects.last().id)
        } else {
            rest
        }
    }
}

/// An entry of the project registry's event log.
#[derive(Debug)]
pub enum BuilderEvent {
    ProjectCreated { owner: Address, project_id: u64, name: Vec<u8> },
    ProjectStatusUpdated { project_id: u64, status: Vec<u8> },
    AiGenerationRequested { project_id: u64, prompt: Vec<u8>, generation_type: Vec<u8> },
}

/// The mathematical content of a [`BuilderEvent`].
pub enum BuilderEventModel {
    ProjectCreated { owner: Seq<u8>, project_id: u64, name: Seq<u8> },
    ProjectStatusUpdated { project_id: u64, status: Seq<u8> },
    AiGenerationRequested { project_id: u64, prompt: Seq<u8>, generation_type: Seq<u8> },
}

impl View for BuilderEvent {
    type V = BuilderEventModel;

    open spec fn view(&self) -> BuilderEventModel {
        match self {
            BuilderEvent::ProjectCreated { owner, project_id, name } => {
                BuilderEventModel::ProjectCreated {
                    owner: owner@,
                    project_id: *project_id,
                    name: name@,
                }
            },
            BuilderEvent::ProjectStatusUpdated { project_id, status } => {
                BuilderEventModel::ProjectStatusUpdated { project_id: *project_id, status: status@ }
            },
            BuilderEvent::AiGenerationRequested { project_id, prompt, generation_type } => {
                BuilderEventModel::AiGenerationRequested {
                    project_id: *project_id,
                    prompt: prompt@,
                    generation_type: generation_type@,
                }
            },
        }
    }
}

/// Registry of user projects: anyone may create one, and only its owner may
/// change its status or ask for AI generation on it.
pub struct AutoBuilderContract {
    admin: Address,
    ai_oracle_address: Option<Address>,
    projects: Registry<Project>,
    events: Vec<BuilderEvent>,
}

impl AutoBuilderContract {
    pub closed spec fn admin_id(&self) -> Seq<u8> {
        self.admin@
    }

    /// The oracle address set by the admin, if any.
    pub closed spec fn oracle_id(&self) -> Option<Seq<u8>> {
        match self.ai_oracle_address {
            Some(a) => Some(a@),
            None => None,
        }
    }

    /// The id the next project will get.
    pub closed spec fn counter(&self) -> u64 {
        self.projects.next_id()
    }

    /// The stored projects, the one with id `i` at index `i - 1`.
    pub closed spec fn records(&self) -> Seq<ProjectModel> {
        self.projects.records().map_values(|p: Project| p@)
    }

    /// The event log, oldest first.
    pub closed spec fn log(&self) -> Seq<BuilderEventModel> {
        self.events@.map_values(|e: BuilderEvent| e@)
    }

    pub open spec fn has_project(&self, id: u64) -> bool {
        1 <= id < self.counter()
    }

    pub open spec fn project(&self, id: u64) -> ProjectModel {
        self.records()[id - 1]
    }

    pub closed spec fn wf(&self) -> bool {
        &&& self.projects.wf()
        &&& forall|i: int|
            0 <= i < self.records().len() ==> #[trigger] self.records()[i].id == i + 1
    }

    /// Ids run from 1 up to the counter, one project each, with no gaps.
    pub proof fn lemma_wf(&self)
        requires
            self.wf(),
        ensures
            self.counter() as int == self.records().len() + 1,
            forall|id: u64| #[trigger] self.has_project(id) ==> self.project(id).id == id,
    {
        self.projects.lemma_wf_len();
        assert forall|id: u64| #[trigger] self.has_project(id) implies self.project(id).id == id by {
            assert(self.records()[id - 1].id == id - 1 + 1);
        }
    }

    /// An empty registry administered by `admin`, with the counter at 1.
    pub fn new(admin: Address) -> (r: AutoBuilderContract)
        ensures
            r.wf(),
            r.admin_id() == admin@,
            r.oracle_id() == None::<Seq<u8>>,
            r.counter() == 1,
            r.records() == Seq::<ProjectModel>::empty(),
            r.log() == Seq::<BuilderEventModel>::empty(),
    {
        let r = AutoBuilderContract {
            admin,
            ai_oracle_address: None,
            projects: Registry::new(),
            events: Vec::new(),
        };
        assert(r.records() =~= Seq::<ProjectModel>::empty());
        assert(r.log() =~= Seq::<BuilderEventModel>::empty());
        r
    }

    /// Creates a project owned by the caller, with status `DRAFT` and both
    /// timestamps set to the block's; logs the creation and returns its id,
    /// the counter's value before the call.
    pub fn create_project(
        &mut self,
        ctx: &CallContext,
        name: Vec<u8>,
        description: Vec<u8>,
        project_type: Vec<u8>,
        config: Vec<u8>,
    ) -> (r: u64)
        requires
            old(self).wf(),
            old(self).counter() < u64::MAX,
        ensures
            final(self).wf(),
            r == old(self).counter(),
            final(self).counter() == old(self).counter() + 1,
            final(self).admin_id() == old(self).admin_id(),
            final(self).oracle_id() == old(self).oracle_id(),
            final(self).records() == old(self).records().push(
                created_project(r, *ctx, name@, description@, project_type@, config@),
            ),
            final(self).log() == old(self).log().push(
                BuilderEventModel::ProjectCreated {
                    owner: ctx.caller@,
                    project_id: r,
                    name: name@,
                },
            ),
    {
        proof {
            self.lemma_wf();
        }
        let project_id = self.projects.next_id_value();
        let event_name = copy_bytes(&name);
        let rec = Project {
            id: project_id,
            owner: ctx.caller,
            name,
            description,
            project_type,
            config,
            status: draft_status_bytes(),
            created_at: ctx.block_timestamp,
            updated_at: ctx.block_timestamp,
        };
        let ghost model = rec@;
        let ghost old_records = self.records();
        let ghost old_log = self.log();
        self.projects.allocate(rec);
        assert(self.records() =~= old_records.push(model));
        self.events.push(
            BuilderEvent::ProjectCreated { owner: ctx.caller, project_id, name: event_name },
        );
        assert(self.log() =~= old_log.push(self.events@.last()@));
        assert(self.wf()) by {
            assert forall|i: int| 0 <= i < self.records().len() implies #[trigger] self.records()[i].id
                == i + 1 by {
                if i < old_records.len() {
                    assert(self.records()[i] == old_records[i]);
                } else {
                    assert(self.records()[i] == model);
                }
            }
        }
        project_id
    }

    /// Sets a project's status text and its update time. Fails with
    /// `NotFound` for an unknown id and with `Unauthorized` when the caller
    /// does not own the project; a refused call changes nothing.
    pub fn update_project_status(
        &mut self,
        ctx: &CallContext,
        project_id: u64,
        new_status: Vec<u8>,
    ) -> (r: Result<(), ContractError>)
        requires
            old(self).wf(),
        ensures
            final(self).wf(),
            r.is_ok() <==> (old(self).has_project(project_id) && old(self).project(project_id).owner
                == ctx.caller@),
            !old(self).has_project(project_id) ==> r == Err::<(), ContractError>(
                ContractError::NotFound,
            ),
            old(self).has_project(project_id) && old(self).project(project_id).owner != ctx.caller@
                ==> r == Err::<(), ContractError>(ContractError::Unauthorized),
            r.is_err() ==> *final(self) == *old(self),
            r.is_ok() ==> {
                &&& final(self).admin_id() == old(self).admin_id()
                &&& final(self).oracle_id() == old(self).oracle_id()
                &&& final(self).counter() == old(self).counter()
                &&& final(self).records() == old(self).records().update(
                    project_id - 1,
                    ProjectModel {
                        status: new_status@,
                        updated_at: ctx.block_timestamp,
                        ..old(self).project(project_id)
                    },
                )
                &&& final(self).log() == old(self).log().push(
                    BuilderEventModel::ProjectStatusUpdated { project_id, status: new_status@ },
                )
            },
    {
        proof {
            self.lemma_wf();
        }
        if !self.projects.contains(project_id) {
            return Err(ContractError::NotFound);
        }
        let stored = self.projects.get(project_id);
        if !stored.owner.same_as(&ctx.caller) {
            return Err(ContractError::Unauthorized);
        }
        let event_status = copy_bytes(&new_status);
        let rec = Project {
            id: stored.id,
            owner: stored.owner,
            name: copy_bytes(&stored.name),
            description: copy_bytes(&stored.description),
            project_type: copy_bytes(&stored.project_type),
            config: copy_bytes(&stored.config),
            status: new_status,
            created_at: stored.created_at,
            updated_at: ctx.block_timestamp,
        };
        let ghost old_records = self.records();
        let ghost model = rec@;
        self.projects.replace(project_id, rec);
        assert(self.records() =~= old_records.update(project_id - 1, model));
        assert(self.wf()) by {
            assert forall|i: int| 0 <= i < self.records().len() implies #[trigger] self.records()[i].id
                == i + 1 by {
                if i != project_id - 1 {
                    assert(self.records()[i] == old_records[i]);
                }
            }
        }
        let ghost old_log = self.log();
        self.events.push(BuilderEvent::ProjectStatusUpdated { project_id, status: event_status });
        assert(self.log() =~= old_log.push(self.events@.last()@));
        Ok(())
    }

    /// Asks for AI generation on a project, which only logs the request for
    /// off-ledger processing. Fails with `NotFound` for an unknown id and
    /// with `Unauthorized` when the caller does not own the project.
    pub fn request_ai_generation(
        &mut self,
        ctx: &CallContext,
        project_id: u64,
        prompt: Vec<u8>,
        generation_type: Vec<u8>,
    ) -> (r: Result<(), ContractError>)
        requires
            old(self).wf(),
        ensures
            final(self).wf(),
            r.is_ok() <==> (old(self).has_project(project_id) && old(self).project(project_id).owner
                == ctx.caller@),
            !old(self).has_project(project_id) ==> r == Err::<(), ContractError>(
                ContractError::NotFound,
            ),
            old(self).has_project(project_id) && old(self).project(project_id).owner != ctx.caller@
                ==> r == Err::<(), ContractError>(ContractError::Unauthorized),
            r.is_err() ==> *final(self) == *old(self),
            r.is_ok() ==> {
                &&& final(self).admin_id() == old(self).admin_id()
                &&& final(self).oracle_id() == old(self).oracle_id()
                &&& final(self).counter() == old(self).counter()
                &&& final(self).records() == old(self).records()
                &&& final(self).log() == old(self).log().push(
                    BuilderEventModel::AiGenerationRequested {
                        project_id,
                        prompt: prompt@,
                        generation_type: generation_type@,
                    },
                )
            },
    {
        proof {
            self.lemma_wf();
        }
        if !self.projects.contains(project_id) {
            return Err(ContractError::NotFound);
        }
        if !self.projects.get(project_id).owner.same_as(&ctx.caller) {
            return Err(ContractError::Unauthorized);
        }
        let ghost old_log = self.log();
        self.events.push(
            BuilderEvent::AiGenerationRequested { project_id, prompt, generation_type },
        );
        assert(self.log() =~= old_log.push(self.events@.last()@));
        Ok(())
    }

    /// Sets the oracle address. Only the admin may call it (`Unauthorized`,
    /// changing nothing).
    pub fn set_ai_oracle(&mut self, ctx: &CallContext, oracle_address: Address) -> (r: Result<
        (),
        ContractError,
    >)
        requires
            old(self).wf(),
        ensures
            final(self).wf(),
            r.is_ok() <==> ctx.caller@ == old(self).admin_id(),
            r.is_err() ==> r == Err::<(), ContractError>(ContractError::Unauthorized) && *final(self)
                == *old(self),
            r.is_ok() ==> {
                &&& final(self).oracle_id() == Some(oracle_address@)
                &&& final(self).admin_id() == old(self).admin_id()
                &&& final(self).counter() == old(self).counter()
                &&& final(self).records() == old(self).records()
                &&& final(self).log() == old(self).log()
            },
    {
        if !ctx.caller.same_as(&self.admin) {
            return Err(ContractError::Unauthorized);
        }
        self.ai_oracle_address = Some(oracle_address);
        assert(self.records() == old(self).records());
        Ok(())
    }

    /// The project stored under `project_id`, or `NotFound`.
    pub fn get_project(&self, project_id: u64) -> (r: Result<Project, ContractError>)
        requires
            self.wf(),
        ensures
            self.has_project(project_id) ==> r.is_ok() && r.unwrap()@ == self.project(project_id),
            !self.has_project(project_id) ==> r.is_err() && r.unwrap_err()
                == ContractError::NotFound,
    {
        proof {
            self.lemma_wf();
        }
        if !self.projects.contains(project_id) {
            return Err(ContractError::NotFound);
        }
        Ok(self.projects.get(project_id).duplicate())
    }

    /// The ids of the projects `user` owns, in creation order.
    pub fn get_user_projects(&self, user: &Address) -> (r: Vec<u64>)
        requires
            self.wf(),
        ensures
            r@ == owned_ids(self.records(), user@),
    {
        proof {
            self.lemma_wf();
        }
        let n: u64 = self.projects.next_id_value();
        let mut r: Vec<u64> = Vec::new();
        let mut id: u64 = 1;
        while id < n
            invariant
                n == self.counter(),
                n as int == self.records().len() + 1,
                1 <= id <= n,
                r@ == owned_ids(self.records().take(id - 1), user@),
                self.wf(),
            decreases n - id,
        {
            let p = self.projects.get(id);
            let ghost prefix = self.records().take(id as int);
            assert(prefix.drop_last() =~= self.records().take(id - 1));
            assert(prefix.last() == self.records()[id - 1]);
            if p.owner.same_as(user) {
                r.push(p.id);
            }
            id = id + 1;
        }
        assert(self.records().take(n - 1) =~= self.records());
        r
    }

    pub fn get_project_counter(&self) -> (r: u64)
        ensures
            r == self.counter(),
    {
        self.projects.next_id_value()
    }

    pub fn get_ai_oracle(&self) -> (r: Option<Address>)
        ensures
            r.is_some() == self.oracle_id().is_some(),
            r.is_some() ==> Some(r.unwrap()@) == self.oracle_id(),
    {
        self.ai_oracle_address
    }

    /// The event log, oldest first.
    pub fn events(&self) -> (r: &Vec<BuilderEvent>)
        ensures
            r@.map_values(|e: BuilderEvent| e@) == self.log(),
    {
        &self.events
    }
}

} // verus!
