//! The privileged operations: code replacement and dispatch with root
//! privilege, each gated by the configured policy.
//!
//! The host runtime performs the operation itself. A call here authorizes
//! the request and hands back the `Action` whose `Request` the host must
//! perform with root privilege; the host reports the outcome to `complete`, which deposits the
//! event and returns the receipt.
use vstd::prelude::*;
use crate::origin::{authorized, evaluate, AuthError, Origin, Policy};
use crate::weight::Weight;

verus! {

/// What the embedding runtime fixes when it assembles this module.
#[derive(Clone, Copy, Debug, PartialEq, Eq, Structural)]
pub struct Config {
    /// Who besides root may perform the privileged operations.
    pub policy: Policy,
    /// The fixed cost of wrapping an inner operation for root dispatch.
    pub dispatch_overhead: Weight,
}

/// Audit signals deposited after a successful operation.
#[derive(Clone, Copy, Debug, PartialEq, Eq, Structural)]
pub enum Event {
    RuntimeUpgradePerformed,
    DispatchedAsRoot,
}

/// An error reported by the host while performing an operation.
#[derive(Clone, Copy, Debug, PartialEq, Eq, Structural)]
pub struct DispatchError(pub u32);

/// Why a privileged request did not succeed.
#[derive(Clone, Copy, Debug, PartialEq, Eq, Structural)]
pub enum Error {
    /// The origin failed the policy; nothing was performed.
    InsufficientAuthority,
    /// The host's own failure, passed on unchanged.
    Dispatch(DispatchError),
}

/// An inner operation: its encoding and the cost it declares.
#[derive(Clone, Debug)]
pub struct Call {
    pub encoded: Vec<u8>,
    pub call_weight: Weight,
}

/// An operation that the host must perform with root privilege, whatever
/// the origin that was authorized.
#[derive(Clone, Debug)]
pub enum Request {
    /// Install this code image as the new runtime.
    InstallCode(Vec<u8>),
    /// Dispatch this inner operation, bypassing the caller filter.
    DispatchAsRoot(Call),
}

/// A request that passed the policy. Only `Pallet::senate_set_code` and
/// `Pallet::senate_dispatch_as_root` make one, and `Pallet::complete`
/// consumes it, so every completed operation was authorized, and at most
/// once.
#[derive(Debug)]
pub struct Action {
    request: Request,
}

impl Action {
    /// The operation that was authorized.
    pub closed spec fn requested(self) -> Request {
        self.request
    }

    /// The operation that the host must perform.
    pub fn request(&self) -> (r: &Request)
        ensures
            *r == self.requested(),
    {
        &self.request
    }
}

/// The record of a successful operation.
#[derive(Clone, Copy, Debug, PartialEq, Eq, Structural)]
pub struct Receipt {
    /// The event deposited for it.
    pub event: Event,
    /// The cost charged. `Weight::max_spec()` tells the host that the rest
    /// of the block's capacity is consumed.
    pub actual_weight: Weight,
}

/// The event that a successful `request` deposits.
pub open spec fn event_of(request: Request) -> Event {
    match request {
        Request::InstallCode(_) => Event::RuntimeUpgradePerformed,
        Request::DispatchAsRoot(_) => Event::DispatchedAsRoot,
    }
}

/// The cost charged for a root dispatch of `call`: its declared cost plus
/// the fixed overhead, saturating.
pub open spec fn dispatch_weight(call: Call, config: Config) -> Weight {
    call.call_weight.sat_add_spec(config.dispatch_overhead)
}

/// The cost charged for a successful `request`. A code replacement
/// consumes the rest of the block, so that nothing later in it runs against
/// the old definitions.
pub open spec fn receipt_weight(request: Request, config: Config) -> Weight {
    match request {
        Request::InstallCode(_) => Weight::max_spec(),
        Request::DispatchAsRoot(call) => dispatch_weight(call, config),
    }
}

fn authorize(origin: &Origin, policy: &Policy) -> (r: Result<(), Error>)
    ensures
        r is Ok <==> authorized(*origin, *policy),
        r is Err ==> r == Err::<(), Error>(Error::InsufficientAuthority),
{
    match evaluate(origin, policy) {
        Ok(()) => Ok(()),
        Err(AuthError::InsufficientAuthority) => Err(Error::InsufficientAuthority),
    }
}

/// A code replacement that the host performed deposits the upgrade event
/// and consumes all remaining capacity; a root dispatch deposits the
/// dispatch event and costs the inner operation's cost plus the overhead.
pub proof fn lemma_receipt_of_request(request: Request, config: Config)
    ensures
        request is InstallCode ==> event_of(request) == Event::RuntimeUpgradePerformed
            && receipt_weight(request, config) == Weight::max_spec(),
        request is DispatchAsRoot ==> event_of(request) == Event::DispatchedAsRoot
            && receipt_weight(request, config) == dispatch_weight(request->DispatchAsRoot_0, config),
{
}

/// The cost of a root dispatch is the exact sum of the inner operation's
/// cost and the overhead in each component, or `u64::MAX` where that sum
/// would not fit; it never wraps.
pub proof fn lemma_dispatch_weight_saturates(call: Call, config: Config)
    ensures
        dispatch_weight(call, config).ref_time as int == if call.call_weight.ref_time as int
            + config.dispatch_overhead.ref_time as int <= u64::MAX as int {
            call.call_weight.ref_time as int + config.dispatch_overhead.ref_time as int
        } else {
            u64::MAX as int
        },
        dispatch_weight(call, config).proof_size as int == if call.call_weight.proof_size as int
            + config.dispatch_overhead.proof_size as int <= u64::MAX as int {
            call.call_weight.proof_size as int + config.dispatch_overhead.proof_size as int
        } else {
            u64::MAX as int
        },
        dispatch_weight(call, config).ref_time >= call.call_weight.ref_time,
        dispatch_weight(call, config).proof_size >= call.call_weight.proof_size,
{
}

/// The privileged-operation gate with the events it has deposited.
pub struct Pallet {
    pub config: Config,
    pub events: Vec<Event>,
}

impl Pallet {
    pub fn new(config: Config) -> (r: Pallet)
        ensures
            r.config == config,
            r.events@ == Seq::<Event>::empty(),
    {
        Pallet { config, events: Vec::new() }
    }

    /// The cost declared for a root dispatch of `call`, before it runs.
    pub fn dispatch_as_root_weight(&self, call: &Call) -> (r: Weight)
        ensures
            r == dispatch_weight(*call, self.config),
    {
        call.call_weight.saturating_add(self.config.dispatch_overhead)
    }

    /// Authorizes replacing the runtime code by `code`. On success the host
    /// must install exactly `code` with root privilege.
    pub fn senate_set_code(&self, origin: &Origin, code: Vec<u8>) -> (r: Result<Action, Error>)
        ensures
            authorized(*origin, self.config.policy) ==> r is Ok && r->Ok_0.requested() == Request::InstallCode(code),
            !authorized(*origin, self.config.policy) ==> r == Err::<Action, Error>(Error::InsufficientAuthority),
    {
        match authorize(origin, &self.config.policy) {
            Ok(()) => Ok(Action { request: Request::InstallCode(code) }),
            Err(e) => Err(e),
        }
    }

    /// Authorizes dispatching `call` with root privilege. On success the
    /// host must dispatch exactly `call`, bypassing the caller filter.
    pub fn senate_dispatch_as_root(&self, origin: &Origin, call: Call) -> (r: Result<Action, Error>)
        ensures
            authorized(*origin, self.config.policy) ==> r is Ok && r->Ok_0.requested() == Request::DispatchAsRoot(call),
            !authorized(*origin, self.config.policy) ==> r == Err::<Action, Error>(Error::InsufficientAuthority),
    {
        match authorize(origin, &self.config.policy) {
            Ok(()) => Ok(Action { request: Request::DispatchAsRoot(call) }),
            Err(e) => Err(e),
        }
    }

    /// Records the host's `outcome` of performing `action`. On success it
    /// deposits exactly one event and returns the receipt; on failure it
    /// deposits nothing and passes the host's error on unchanged.
    pub fn complete(&mut self, action: Action, outcome: Result<(), DispatchError>) -> (r: Result<Receipt, Error>)
        ensures
            final(self).config == old(self).config,
            outcome is Ok ==> r == Ok::<Receipt, Error>(
                Receipt {
                    event: event_of(action.requested()),
                    actual_weight: receipt_weight(action.requested(), old(self).config),
                },
            ),
            outcome is Ok ==> final(self).events@ == old(self).events@.push(event_of(action.requested())),
            outcome is Err ==> r == Err::<Receipt, Error>(Error::Dispatch(outcome->Err_0)),
            outcome is Err ==> final(self).events@ == old(self).events@,
    {
        match outcome {
            Err(e) => Err(Error::Dispatch(e)),
            Ok(()) => {
                let (event, actual_weight) = match action.request() {
                    Request::InstallCode(_) => (Event::RuntimeUpgradePerformed, Weight::max_value()),
                    Request::DispatchAsRoot(call) => (Event::DispatchedAsRoot, self.dispatch_as_root_weight(call)),
                };
                self.events.push(event);
                Ok(Receipt { event, actual_weight })
            },
        }
    }
}

} // verus!
