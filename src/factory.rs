use vstd::prelude::*;

use crate::address::Address;
use crate::amount::BigUint;
use crate::bytes::{bytes_eq, copy_bytes};
use crate::context::CallContext;
use crate::error::ContractError;

verus! {

/// A deployable project template, keyed by its name.
#[derive(Debug)]
pub struct ProjectTemplate {
    pub name: Vec<u8>,
    pub code: Vec<u8>,
    pub metadata: Vec<u8>,
    pub active: bool,
}

/// The mathematical content of a [`ProjectTemplate`].
pub struct TemplateModel {
    pub name: Seq<u8>,
    pub code: Seq<u8>,
    pub metadata: Seq<u8>,
    pub active: bool,
}

impl View for ProjectTemplate {
    type V = TemplateModel;

    open spec fn view(&self) -> TemplateModel {
        TemplateModel {
            name: self.name@,
            code: self.code@,
            metadata: self.metadata@,
            active: self.active,
        }
    }
}

impl ProjectTemplate {
    /// A copy of this template.
    pub fn duplicate(&self) -> (r: ProjectTemplate)
        ensures
            r@ == self@,
    {
        ProjectTemplate {
            name: copy_bytes(&self.name),
            code: copy_bytes(&self.code),
            metadata: copy_bytes(&self.metadata),
            active: self.active,
        }
    }
}

/// An entry of the factory's event log.
#[derive(Debug)]
pub enum FactoryEvent {
    ProjectDeployed { deployer: Address, template_type: Vec<u8> },
    TemplateRegistered { template_name: Vec<u8> },
}

/// The mathematical content of a [`FactoryEvent`].
pub enum FactoryEventModel {
    ProjectDeployed { deployer: Seq<u8>, template_type: Seq<u8> },
    TemplateRegistered { template_name: Seq<u8> },
}

impl View for FactoryEvent {
    type V = FactoryEventModel;

    open spec fn view(&self) -> FactoryEventModel {
        match self {
            FactoryEvent::ProjectDeployed { deployer, template_type } => {
                FactoryEventModel::ProjectDeployed {
                    deployer: deployer@,
                    template_type: template_type@,
                }
            },
            FactoryEvent::TemplateRegistered { template_name } => {
                FactoryEventModel::TemplateRegistered { template_name: template_name@ }
            },
        }
    }
}

/// The templates of `ts` as a map from name to template, a later entry
/// winning over an earlier one of the same name.
pub open spec fn template_map(ts: Seq<TemplateModel>) -> Map<Seq<u8>, TemplateModel>
    decreases ts.len(),
{
    if ts.len() == 0 {
        Map::empty()
    } else {
        template_map(ts.drop_last()).insert(ts.last().name, ts.last())
    }
}

/// No two templates of `ts` share a name.
pub open spec fn names_unique(ts: Seq<TemplateModel>) -> bool {
    forall|i: int, j: int| 0 <= i < j < ts.len() ==> ts[i].name != ts[j].name
}

proof fn lemma_map_push_absent(ts: Seq<TemplateModel>, t: TemplateModel)
    requires
        names_unique(ts),
        forall|i: int| 0 <= i < ts.len() ==> ts[i].name != t.name,
    ensures
        names_unique(ts.push(t)),
        template_map(ts.push(t)) == template_map(ts).insert(t.name, t),
{
    assert(ts.push(t).drop_last() =~= ts);
}

proof fn lemma_map_update(ts: Seq<TemplateModel>, i: int, t: TemplateModel)
    requires
        names_unique(ts),
        0 <= i < ts.len(),
        ts[i].name == t.name,
    ensures
        names_unique(ts.update(i, t)),
        template_map(ts.update(i, t)) == template_map(ts).insert(t.name, t),
    decreases ts.len(),
{
    let u = ts.update(i, t);
    let m = template_map(ts.drop_last());
    if i == ts.len() - 1 {
        assert(u.drop_last() =~= ts.drop_last());
        assert(template_map(u) =~= template_map(ts).insert(t.name, t));
    } else {
        assert(u.drop_last() =~= ts.drop_last().update(i, t));
        lemma_map_update(ts.drop_last(), i, t);
        assert(ts.last().name != t.name);
        assert(template_map(u) =~= template_map(ts).insert(t.name, t));
    }
}

/// Template store and deployment front: the admin registers templates, and
/// anyone who pays the deployment fee may deploy a project.
pub struct ProjectFactoryContract {
    admin: Address,
    self_address: Address,
    deployment_fee: BigUint,
    templates: Vec<ProjectTemplate>,
    events: Vec<FactoryEvent>,
}

impl ProjectFactoryContract {
    pub closed spec fn admin_id(&self) -> Seq<u8> {
        self.admin@
    }

    /// The factory's own address.
    pub closed spec fn own_id(&self) -> Seq<u8> {
        self.self_address@
    }

    pub closed spec fn fee(&self) -> nat {
        self.deployment_fee.value()
    }

    /// The registered templates by name.
    pub closed spec fn catalog(&self) -> Map<Seq<u8>, TemplateModel> {
        template_map(self.templates@.map_values(|t: ProjectTemplate| t@))
    }

    /// The event log, oldest first.
    pub closed spec fn log(&self) -> Seq<FactoryEventModel> {
        self.events@.map_values(|e: FactoryEvent| e@)
    }

    closed spec fn stored(&self) -> Seq<TemplateModel> {
        self.templates@.map_values(|t: ProjectTemplate| t@)
    }

    /// Each name is stored once.
    pub closed spec fn wf(&self) -> bool {
        names_unique(self.stored())
    }

    /// A factory at `self_address` administered by `admin`, with no templates
    /// and a zero deployment fee.
    pub fn new(admin: Address, self_address: Address) -> (r: ProjectFactoryContract)
        ensures
            r.wf(),
            r.admin_id() == admin@,
            r.own_id() == self_address@,
            r.fee() == 0,
            r.catalog() == Map::<Seq<u8>, TemplateModel>::empty(),
            r.log() == Seq::<FactoryEventModel>::empty(),
    {
        let r = ProjectFactoryContract {
            admin,
            self_address,
            deployment_fee: BigUint::zero(),
            templates: Vec::new(),
            events: Vec::new(),
        };
        assert(r.templates@.map_values(|t: ProjectTemplate| t@) =~= Seq::<TemplateModel>::empty());
        assert(r.log() =~= Seq::<FactoryEventModel>::empty());
        r
    }

    /// Deploys a project from a template, paid by `ctx.payment`. Fails with
    /// `InsufficientPayment`, changing nothing, when the payment is below the
    /// deployment fee. Deployment itself is announced in the log; the address
    /// returned is the factory's own.
    pub fn deploy_project(
        &mut self,
        ctx: &CallContext,
        template_type: Vec<u8>,
        init_args: Vec<Vec<u8>>,
    ) -> (r: Result<Address, ContractError>)
        requires
            old(self).wf(),
        ensures
            final(self).wf(),
            r.is_ok() <==> ctx.payment.value() >= old(self).fee(),
            r.is_err() ==> r == Err::<Address, ContractError>(ContractError::InsufficientPayment)
                && *final(self) == *old(self),
            r.is_ok() ==> {
                &&& r.unwrap()@ == old(self).own_id()
                &&& final(self).admin_id() == old(self).admin_id()
                &&& final(self).own_id() == old(self).own_id()
                &&& final(self).fee() == old(self).fee()
                &&& final(self).catalog() == old(self).catalog()
                &&& final(self).log() == old(self).log().push(
                    FactoryEventModel::ProjectDeployed {
                        deployer: ctx.caller@,
                        template_type: template_type@,
                    },
                )
            },
    {
        if !ctx.payment.ge(&self.deployment_fee) {
            return Err(ContractError::InsufficientPayment);
        }
        let ghost old_log = self.log();
        self.events.push(FactoryEvent::ProjectDeployed { deployer: ctx.caller, template_type });
        assert(self.log() =~= old_log.push(self.events@.last()@));
        Ok(self.self_address)
    }

    /// Registers `template_name` as an active template with the given code
    /// and metadata, replacing any template of that name. Only the admin may
    /// call it (`Unauthorized`, changing nothing).
    pub fn register_template(
        &mut self,
        ctx: &CallContext,
        template_name: Vec<u8>,
        template_code: Vec<u8>,
        template_metadata: Vec<u8>,
    ) -> (r: Result<(), ContractError>)
        requires
            old(self).wf(),
        ensures
            final(self).wf(),
            r.is_ok() <==> ctx.caller@ == old(self).admin_id(),
            r.is_err() ==> r == Err::<(), ContractError>(ContractError::Unauthorized) && *final(self)
                == *old(self),
            r.is_ok() ==> {
                &&& final(self).admin_id() == old(self).admin_id()
                &&& final(self).own_id() == old(self).own_id()
                &&& final(self).fee() == old(self).fee()
                &&& final(self).catalog() == old(self).catalog().insert(
                    template_name@,
                    TemplateModel {
                        name: template_name@,
                        code: template_code@,
                        metadata: template_metadata@,
                        active: true,
                    },
                )
                &&& final(self).log() == old(self).log().push(
                    FactoryEventModel::TemplateRegistered { template_name: template_name@ },
                )
            },
    {
        if !ctx.caller.same_as(&self.admin) {
            return Err(ContractError::Unauthorized);
        }
        let event_name = copy_bytes(&template_name);
        let n = self.templates.len();
        let mut i: usize = 0;
        let mut found: bool = false;
        while !found && i < n
            invariant
                n == self.templates@.len(),
                0 <= i <= n,
                found ==> i < n && self.stored()[i as int].name == template_name@,
                forall|j: int| 0 <= j < i ==> self.stored()[j].name != template_name@,
            decreases n - i, (if found { 0int } else { 1int }),
        {
            if bytes_eq(&self.templates[i].name, &template_name) {
                found = true;
            } else {
                i = i + 1;
            }
        }
        let t = ProjectTemplate {
            name: template_name,
            code: template_code,
            metadata: template_metadata,
            active: true,
        };
        let ghost old_ts = self.stored();
        let ghost model = t@;
        if found {
            self.templates.set(i, t);
            proof {
                assert(self.stored() =~= old_ts.update(i as int, model));
                lemma_map_update(old_ts, i as int, model);
            }
        } else {
            self.templates.push(t);
            proof {
                assert(self.stored() =~= old_ts.push(model));
                lemma_map_push_absent(old_ts, model);
            }
        }
        let ghost old_log = self.log();
        self.events.push(FactoryEvent::TemplateRegistered { template_name: event_name });
        assert(self.log() =~= old_log.push(self.events@.last()@));
        Ok(())
    }

    /// Replaces the deployment fee. Only the admin may call it
    /// (`Unauthorized`, changing nothing); any value is accepted.
    pub fn set_deployment_fee(&mut self, ctx: &CallContext, fee: BigUint) -> (r: Result<
        (),
        ContractError,
    >)
        requires
            old(self).wf(),
        ensures
            final(self).wf(),
            r.is_ok() <==> ctx.caller@ == old(self).admin_id(),
            r.is_err() ==> r == Err::<(), ContractError>(ContractError::Unauthorized) && *final(self)
                == *old(self),
            r.is_ok() ==> {
                &&& final(self).fee() == fee.value()
                &&& final(self).admin_id() == old(self).admin_id()
                &&& final(self).own_id() == old(self).own_id()
                &&& final(self).catalog() == old(self).catalog()
                &&& final(self).log() == old(self).log()
            },
    {
        if !ctx.caller.same_as(&self.admin) {
            return Err(ContractError::Unauthorized);
        }
        self.deployment_fee = fee;
        Ok(())
    }

    /// The template registered under `name`, or `NotFound`.
    pub fn get_template(&self, name: &Vec<u8>) -> (r: Result<ProjectTemplate, ContractError>)
        requires
            self.wf(),
        ensures
            self.catalog().contains_key(name@) ==> r.is_ok() && r.unwrap()@ == self.catalog()[name@],
            !self.catalog().contains_key(name@) ==> r.is_err() && r.unwrap_err()
                == ContractError::NotFound,
    {
        let ghost ts = self.templates@.map_values(|t: ProjectTemplate| t@);
        let mut i: usize = self.templates.len();
        assert(ts.take(i as int) =~= ts);
        while i > 0
            invariant
                0 <= i <= self.templates@.len(),
                ts == self.templates@.map_values(|t: ProjectTemplate| t@),
                template_map(ts) == self.catalog(),
                template_map(ts).contains_key(name@) <==> template_map(ts.take(i as int)).contains_key(
                    name@,
                ),
                template_map(ts).contains_key(name@) ==> template_map(ts)[name@] == template_map(
                    ts.take(i as int),
                )[name@],
            decreases i,
        {
            let t = &self.templates[i - 1];
            proof {
                let p = ts.take(i as int);
                assert(p.drop_last() =~= ts.take(i - 1));
                assert(p.last() == t@);
            }
            if bytes_eq(&t.name, name) {
                return Ok(t.duplicate());
            }
            i = i - 1;
        }
        assert(ts.take(0) =~= Seq::<TemplateModel>::empty());
        Err(ContractError::NotFound)
    }

    pub fn get_deployment_fee(&self) -> (r: BigUint)
        ensures
            r.value() == self.fee(),
    {
        self.deployment_fee.duplicate()
    }

    pub fn get_admin(&self) -> (r: Address)
        ensures
            r@ == self.admin_id(),
    {
        self.admin
    }

    /// The event log, oldest first.
    pub fn events(&self) -> (r: &Vec<FactoryEvent>)
        ensures
            r@.map_values(|e: FactoryEvent| e@) == self.log(),
    {
        &self.events
    }
}

} // verus!
