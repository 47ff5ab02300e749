use vstd::prelude::*;

use crate::address::Address;
use crate::amount::BigUint;
use crate::bytes::copy_bytes;
use crate::context::CallContext;
use crate::error::ContractError;
use crate::registry::Registry;

verus! {

/// Lifecycle of a request: created `Pending`, moved once to `Fulfilled`.
#[derive(Clone, Copy, Debug, PartialEq, Eq, Structural)]
pub enum RequestStatus {
    Pending,
    Fulfilled,
}

/// A stored AI request.
#[derive(Debug)]
pub struct AiRequest {
    pub id: u64,
    pub requester: Address,
    pub prompt: Vec<u8>,
    pub generation_type: Vec<u8>,
    pub callback_contract: Address,
    pub callback_function: Vec<u8>,
    pub status: RequestStatus,
    pub created_at: u64,
    /// Empty until the request is fulfilled.
    pub response: Vec<u8>,
}

/// The mathematical content of an [`AiRequest`].
pub struct RequestModel {
    pub id: u64,
    pub requester: Seq<u8>,
    pub prompt: Seq<u8>,
    pub generation_type: Seq<u8>,
    pub callback_contract: Seq<u8>,
    pub callback_function: Seq<u8>,
    pub status: RequestStatus,
    pub created_at: u64,
    pub response: Seq<u8>,
}

impl View for AiRequest {
    type V = RequestModel;

    open spec fn view(&self) -> RequestModel {
        RequestModel {
            id: self.id,
            requester: self.requester@,
            prompt: self.prompt@,
            generation_type: self.generation_type@,
            callback_contract: self.callback_contract@,
            callback_function: self.callback_function@,
            status: self.status,
            created_at: self.created_at,
            response: self.response@,
        }
    }
}

impl AiRequest {
    /// A copy of this request.
    pub fn duplicate(&self) -> (r: AiRequest)
        ensures
            r@ == self@,
    {
        AiRequest {
            id: self.id,
            requester: self.requester,
            prompt: copy_bytes(&self.prompt),
            generation_type: copy_bytes(&self.generation_type),
            callback_contract: self.callback_contract,
            callback_function: copy_bytes(&self.callback_function),
            status: self.status,
            created_at: self.created_at,
            response: copy_bytes(&self.response),
        }
    }
}

/// The record a successful submission stores.
pub open spec fn submitted_request(
    id: u64,
    ctx: CallContext,
    prompt: Seq<u8>,
    generation_type: Seq<u8>,
    callback_contract: Seq<u8>,
    callback_function: Seq<u8>,
) -> RequestModel {
    RequestModel {
        id,
        requester: ctx.caller@,
        prompt,
        generation_type,
        callback_contract,
        callback_function,
        status: RequestStatus::Pending,
        created_at: ctx.block_timestamp,
        response: Seq::empty(),
    }
}

/// `m` after fulfillment with `response`: every other field is kept.
pub open spec fn fulfilled_request(m: RequestModel, response: Seq<u8>) -> RequestModel {
    RequestModel { status: RequestStatus::Fulfilled, response, ..m }
}

/// `post` follows `pre` by a submission that was given `id`: the id is the
/// counter's value, and the counter moves on by one.
pub open spec fn submit_step(pre: AiOracleContract, post: AiOracleContract, id: u64) -> bool {
    id == pre.counter() && post.counter() == pre.counter() + 1
}

/// An entry of the oracle's event log.
#[derive(Debug)]
pub enum OracleEvent {
    AiRequestSubmitted {
        request_id: u64,
        requester: Address,
        prompt: Vec<u8>,
        generation_type: Vec<u8>,
    },
    AiRequestFulfilled { request_id: u64, response: Vec<u8> },
    CallbackExecuted { request_id: u64, callback_contract: Address },
}

/// The mathematical content of an [`OracleEvent`].
pub enum OracleEventModel {
    AiRequestSubmitted {
        request_id: u64,
        requester: Seq<u8>,
        prompt: Seq<u8>,
        generation_type: Seq<u8>,
    },
    AiRequestFulfilled { request_id: u64, response: Seq<u8> },
    CallbackExecuted { request_id: u64, callback_contract: Seq<u8> },
}

impl View for OracleEvent {
    type V = OracleEventModel;

    open spec fn view(&self) -> OracleEventModel {
        match self {
            OracleEvent::AiRequestSubmitted { request_id, requester, prompt, generation_type } => {
                OracleEventModel::AiRequestSubmitted {
                    request_id: *request_id,
                    requester: requester@,
                    prompt: prompt@,
                    generation_type: generation_type@,
                }
            },
            OracleEvent::AiRequestFulfilled { request_id, response } => {
                OracleEventModel::AiRequestFulfilled { request_id: *request_id, response: response@ }
            },
            OracleEvent::CallbackExecuted { request_id, callback_contract } => {
                OracleEventModel::CallbackExecuted {
                    request_id: *request_id,
                    callback_contract: callback_contract@,
                }
            },
        }
    }
}

/// The request/fulfillment oracle: clients submit paid requests, the admin
/// fulfills them, and every state change is announced in the event log.
pub struct AiOracleContract {
    admin: Address,
    oracle_fee: BigUint,
    requests: Registry<AiRequest>,
    events: Vec<OracleEvent>,
}

impl AiOracleContract {
    /// The identity allowed to fulfill requests and set the fee.
    pub closed spec fn admin_id(&self) -> Seq<u8> {
        self.admin@
    }

    /// The fee a submission must pay at least.
    pub closed spec fn fee(&self) -> nat {
        self.oracle_fee.value()
    }

    /// The id the next submission will get.
    pub closed spec fn counter(&self) -> u64 {
        self.requests.next_id()
    }

    /// The stored requests, the one with id `i` at index `i - 1`.
    pub closed spec fn records(&self) -> Seq<RequestModel> {
        self.requests.records().map_values(|r: AiRequest| r@)
    }

    /// The event log, oldest first.
    pub closed spec fn log(&self) -> Seq<OracleEventModel> {
        self.events@.map_values(|e: OracleEvent| e@)
    }

    pub open spec fn has_request(&self, id: u64) -> bool {
        1 <= id < self.counter()
    }

    pub open spec fn request(&self, id: u64) -> RequestModel {
        self.records()[id - 1]
    }

    pub closed spec fn wf(&self) -> bool {
        &&& self.requests.wf()
        &&& forall|i: int|
            0 <= i < self.records().len() ==> #[trigger] self.records()[i].id == i + 1
        &&& forall|i: int|
            0 <= i < self.records().len() && #[trigger] self.records()[i].status
                == RequestStatus::Pending ==> self.records()[i].response.len() == 0
    }

    /// Ids run from 1 up to the counter, one record each, with no gaps; a
    /// pending request has no response yet.
    pub proof fn lemma_wf(&self)
        requires
            self.wf(),
        ensures
            self.counter() as int == self.records().len() + 1,
            forall|id: u64| #[trigger] self.has_request(id) ==> self.request(id).id == id,
            forall|id: u64|
                #[trigger] self.has_request(id) && self.request(id).status == RequestStatus::Pending
                    ==> self.request(id).response.len() == 0,
    {
        self.requests.lemma_wf_len();
        assert forall|id: u64| #[trigger] self.has_request(id) implies self.request(id).id == id by {
            assert(self.records()[id - 1].id == id - 1 + 1);
        }
    }

    /// A new oracle with `admin` as its admin, a zero fee, no requests, and
    /// the counter at 1.
    pub fn new(admin: Address) -> (r: AiOracleContract)
        ensures
            r.wf(),
            r.admin_id() == admin@,
            r.fee() == 0,
            r.counter() == 1,
            r.records() == Seq::<RequestModel>::empty(),
            r.log() == Seq::<OracleEventModel>::empty(),
    {
        let r = AiOracleContract {
            admin,
            oracle_fee: BigUint::zero(),
            requests: Registry::new(),
            events: Vec::new(),
        };
        assert(r.records() =~= Seq::<RequestModel>::empty());
        assert(r.log() =~= Seq::<OracleEventModel>::empty());
        r
    }

    /// Submits a request paid by `ctx.payment`. Fails with
    /// `InsufficientPayment`, changing nothing, when the payment is below the
    /// fee; otherwise stores a pending request under the counter's id,
    /// advances the counter, logs the submission and returns the id.
    pub fn submit_ai_request(
        &mut self,
        ctx: &CallContext,
        prompt: Vec<u8>,
        generation_type: Vec<u8>,
        callback_contract: Address,
        callback_function: Vec<u8>,
    ) -> (r: Result<u64, ContractError>)
        requires
            old(self).wf(),
            old(self).counter() < u64::MAX,
        ensures
            final(self).wf(),
            ctx.payment.value() < old(self).fee() ==> r == Err::<u64, ContractError>(
                ContractError::InsufficientPayment,
            ) && *final(self) == *old(self),
            r.is_ok() ==> submit_step(*old(self), *final(self), r.unwrap()),
            ctx.payment.value() >= old(self).fee() ==> {
                &&& r == Ok::<u64, ContractError>(old(self).counter())
                &&& final(self).admin_id() == old(self).admin_id()
                &&& final(self).fee() == old(self).fee()
                &&& final(self).counter() == old(self).counter() + 1
                &&& final(self).records() == old(self).records().push(
                    submitted_request(
                        old(self).counter(),
                        *ctx,
                        prompt@,
                        generation_type@,
                        callback_contract@,
                        callback_function@,
                    ),
                )
                &&& final(self).log() == old(self).log().push(
                    OracleEventModel::AiRequestSubmitted {
                        request_id: old(self).counter(),
                        requester: ctx.caller@,
                        prompt: prompt@,
                        generation_type: generation_type@,
                    },
                )
            },
    {
        proof {
            self.lemma_wf();
        }
        if !ctx.payment.ge(&self.oracle_fee) {
            return Err(ContractError::InsufficientPayment);
        }
        let request_id = self.requests.next_id_value();
        let requester = ctx.caller;
        let event_prompt = copy_bytes(&prompt);
        let event_generation_type = copy_bytes(&generation_type);
        let rec = AiRequest {
            id: request_id,
            requester,
            prompt,
            generation_type,
            callback_contract,
            callback_function,
            status: RequestStatus::Pending,
            created_at: ctx.block_timestamp,
            response: Vec::new(),
        };
        let ghost model = rec@;
        let ghost old_records = self.records();
        let ghost old_log = self.log();
        self.requests.allocate(rec);
        assert(self.records() =~= old_records.push(model));
        self.events.push(
            OracleEvent::AiRequestSubmitted {
                request_id,
                requester,
                prompt: event_prompt,
                generation_type: event_generation_type,
            },
        );
        assert(self.log() =~= old_log.push(self.events@.last()@));
        assert(self.wf()) by {
            assert forall|i: int| 0 <= i < self.records().len() implies #[trigger] self.records()[i].id
                == i + 1 by {
                if i < old_records.len() {
                    assert(self.records()[i] == old_records[i]);
                } else {
                    assert(self.records()[i] == model);
                }
            }
        }
        Ok(request_id)
    }

    /// Announces the delivery of a fulfilled request to its callback target.
    fn call_contract_callback(&mut self, request_id: u64, callback_contract: Address)
        ensures
            final(self).admin == old(self).admin,
            final(self).oracle_fee == old(self).oracle_fee,
            final(self).requests == old(self).requests,
            final(self).log() == old(self).log().push(
                OracleEventModel::CallbackExecuted {
                    request_id,
                    callback_contract: callback_contract@,
                },
            ),
    {
        let ghost old_log = self.log();
        self.events.push(OracleEvent::CallbackExecuted { request_id, callback_contract });
        assert(self.log() =~= old_log.push(self.events@.last()@));
    }

    /// Records `response` for a pending request. Only the admin may call it
    /// (`Unauthorized`); the id must be stored (`NotFound`) and still pending
    /// (`InvalidState`). A refused call changes nothing. On success the
    /// request becomes fulfilled with exactly `response`, the callback target
    /// is announced, and the fulfillment is logged.
    pub fn fulfill_ai_request(
        &mut self,
        ctx: &CallContext,
        request_id: u64,
        response: Vec<u8>,
    ) -> (r: Result<(), ContractError>)
        requires
            old(self).wf(),
        ensures
            final(self).wf(),
            r.is_ok() <==> (ctx.caller@ == old(self).admin_id() && old(self).has_request(request_id)
                && old(self).request(request_id).status == RequestStatus::Pending),
            ctx.caller@ != old(self).admin_id() ==> r == Err::<(), ContractError>(
                ContractError::Unauthorized,
            ),
            ctx.caller@ == old(self).admin_id() && !old(self).has_request(request_id) ==> r == Err::<
                (),
                ContractError,
            >(ContractError::NotFound),
            ctx.caller@ == old(self).admin_id() && old(self).has_request(request_id) && old(self).request(request_id).status != RequestStatus::Pending ==> r == Err::<(), ContractError>(
                ContractError::InvalidState,
            ),
            r.is_err() ==> *final(self) == *old(self),
            r.is_ok() ==> {
                &&& final(self).admin_id() == old(self).admin_id()
                &&& final(self).fee() == old(self).fee()
                &&& final(self).counter() == old(self).counter()
                &&& final(self).records() == old(self).records().update(
                    request_id - 1,
                    fulfilled_request(old(self).request(request_id), response@),
                )
                &&& final(self).log() == old(self).log().push(
                    OracleEventModel::CallbackExecuted {
                        request_id,
                        callback_contract: old(self).request(request_id).callback_contract,
                    },
                ).push(OracleEventModel::AiRequestFulfilled { request_id, response: response@ })
            },
    {
        if !ctx.caller.same_as(&self.admin) {
            return Err(ContractError::Unauthorized);
        }
        proof {
            self.lemma_wf();
        }
        if !self.requests.contains(request_id) {
            return Err(ContractError::NotFound);
        }
        let stored = self.requests.get(request_id);
        if stored.status != RequestStatus::Pending {
            return Err(ContractError::InvalidState);
        }
        let callback_contract = stored.callback_contract;
        let event_response = copy_bytes(&response);
        let rec = AiRequest {
            id: stored.id,
            requester: stored.requester,
            prompt: copy_bytes(&stored.prompt),
            generation_type: copy_bytes(&stored.generation_type),
            callback_contract,
            callback_function: copy_bytes(&stored.callback_function),
            status: RequestStatus::Fulfilled,
            created_at: stored.created_at,
            response,
        };
        let ghost old_records = self.records();
        let ghost model = rec@;
        assert(model == fulfilled_request(old_records[request_id - 1], response@));
        self.requests.replace(request_id, rec);
        assert(self.records() =~= old_records.update(request_id - 1, model));
        assert(self.wf()) by {
            assert forall|i: int| 0 <= i < self.records().len() implies #[trigger] self.records()[i].id
                == i + 1 by {
                if i != request_id - 1 {
                    assert(self.records()[i] == old_records[i]);
                }
            }
            assert forall|i: int|
                0 <= i < self.records().len() && #[trigger] self.records()[i].status
                    == RequestStatus::Pending implies self.records()[i].response.len() == 0 by {
                assert(i != request_id - 1);
                assert(self.records()[i] == old_records[i]);
            }
        }
        self.call_contract_callback(request_id, callback_contract);
        let ghost mid_log = self.log();
        self.events.push(OracleEvent::AiRequestFulfilled { request_id, response: event_response });
        assert(self.log() =~= mid_log.push(self.events@.last()@));
        Ok(())
    }

    /// Replaces the fee. Only the admin may call it (`Unauthorized`, changing
    /// nothing); any value is accepted.
    pub fn set_oracle_fee(&mut self, ctx: &CallContext, fee: BigUint) -> (r: Result<
        (),
        ContractError,
    >)
        requires
            old(self).wf(),
        ensures
            final(self).wf(),
            r.is_ok() <==> ctx.caller@ == old(self).admin_id(),
            r.is_err() ==> r == Err::<(), ContractError>(ContractError::Unauthorized) && *final(self) == *old(self),
            r.is_ok() ==> {
                &&& final(self).fee() == fee.value()
                &&& final(self).admin_id() == old(self).admin_id()
                &&& final(self).counter() == old(self).counter()
                &&& final(self).records() == old(self).records()
                &&& final(self).log() == old(self).log()
            },
    {
        if !ctx.caller.same_as(&self.admin) {
            return Err(ContractError::Unauthorized);
        }
        self.oracle_fee = fee;
        Ok(())
    }

    /// The request stored under `request_id`, or `NotFound`.
    pub fn get_ai_request(&self, request_id: u64) -> (r: Result<AiRequest, ContractError>)
        requires
            self.wf(),
        ensures
            self.has_request(request_id) ==> r.is_ok() && r.unwrap()@ == self.request(request_id),
            !self.has_request(request_id) ==> r.is_err() && r.unwrap_err()
                == ContractError::NotFound,
    {
        proof {
            self.lemma_wf();
        }
        if !self.requests.contains(request_id) {
            return Err(ContractError::NotFound);
        }
        Ok(self.requests.get(request_id).duplicate())
    }

    pub fn get_oracle_fee(&self) -> (r: BigUint)
        ensures
            r.value() == self.fee(),
    {
        self.oracle_fee.duplicate()
    }

    /// The id the next successful submission will get.
    pub fn get_request_counter(&self) -> (r: u64)
        ensures
            r == self.counter(),
    {
        self.requests.next_id_value()
    }

    pub fn get_admin(&self) -> (r: Address)
        ensures
            r@ == self.admin_id(),
    {
        self.admin
    }

    /// The event log, oldest first.
    pub fn events(&self) -> (r: &Vec<OracleEvent>)
        ensures
            r@.map_values(|e: OracleEvent| e@) == self.log(),
    {
        &self.events
    }
}


/// Successful submissions, one after another on an oracle whose counter
/// starts at 1, return the ids 1, 2, 3, ...: strictly increasing from 1, with
/// no gap and no repeat.
pub proof fn lemma_submission_ids(states: Seq<AiOracleContract>, ids: Seq<u64>)
    requires
        states.len() == ids.len() + 1,
        states[0].counter() == 1,
        forall|k: int| 0 <= k < ids.len() ==> #[trigger] submit_step(states[k], states[k + 1], ids[k]),
    ensures
        forall|k: int| 0 <= k < ids.len() ==> #[trigger] ids[k] == k + 1,
        forall|j: int, k: int| 0 <= j < k < ids.len() ==> ids[j] < ids[k],
{
    assert forall|k: int| 0 <= k < ids.len() implies #[trigger] ids[k] == k + 1 by {
        lemma_counter_after_steps(states, ids, k);
        assert(submit_step(states[k], states[k + 1], ids[k]));
    }
}

proof fn lemma_counter_after_steps(states: Seq<AiOracleContract>, ids: Seq<u64>, k: int)
    requires
        states.len() == ids.len() + 1,
        states[0].counter() == 1,
        forall|j: int| 0 <= j < ids.len() ==> #[trigger] submit_step(states[j], states[j + 1], ids[j]),
        0 <= k <= ids.len(),
    ensures
        states[k].counter() == k + 1,
    decreases k,
{
    if k > 0 {
        lemma_counter_after_steps(states, ids, k - 1);
        assert(submit_step(states[k - 1], states[k], ids[k - 1]));
    }
}

/// Right after a successful submission the new request reads back exactly as
/// it was stored: pending, with an empty response, under the returned id.
pub proof fn lemma_get_after_submit(
    pre: AiOracleContract,
    post: AiOracleContract,
    id: u64,
    stored: RequestModel,
)
    requires
        pre.wf(),
        post.wf(),
        submit_step(pre, post, id),
        post.records() == pre.records().push(stored),
        stored.status == RequestStatus::Pending,
    ensures
        post.has_request(id),
        post.request(id) == stored,
        post.request(id).id == id,
        post.request(id).response.len() == 0,
{
    pre.lemma_wf();
    post.lemma_wf();
}

/// A fulfillment is final: afterwards the request is no longer pending (so
/// fulfilling it again is refused with `InvalidState`), its response is the
/// one supplied, and its other fields are those it was submitted with.
pub proof fn lemma_fulfill_once(
    pre: AiOracleContract,
    post: AiOracleContract,
    id: u64,
    response: Seq<u8>,
)
    requires
        pre.wf(),
        pre.has_request(id),
        pre.request(id).status == RequestStatus::Pending,
        post.counter() == pre.counter(),
        post.records() == pre.records().update(id - 1, fulfilled_request(pre.request(id), response)),
    ensures
        post.has_request(id),
        post.request(id).status == RequestStatus::Fulfilled,
        post.request(id).status != RequestStatus::Pending,
        post.request(id).response == response,
        post.request(id).id == pre.request(id).id,
        post.request(id).requester == pre.request(id).requester,
        post.request(id).prompt == pre.request(id).prompt,
        post.request(id).generation_type == pre.request(id).generation_type,
        post.request(id).callback_contract == pre.request(id).callback_contract,
        post.request(id).callback_function == pre.request(id).callback_function,
        post.request(id).created_at == pre.request(id).created_at,
{
    pre.lemma_wf();
}

} // verus!
