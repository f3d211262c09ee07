//! The deployment state machine.
//!
//! Deployment proceeds from a derived future address: request funding from a
//! funding-source contract, poll the account snapshot on a fixed interval
//! until it is uninitialized with a positive balance (a bounded number of
//! observations), then build and submit the deploy message. Address
//! derivation is instant and pure, funding confirmation is the only retried
//! step, and submission is one-shot: the retry policy is scoped to the one
//! step with external timing nondeterminism.
//!
//! The machine decides; the network client acts. Each step consumes the
//! outcome of one outside action (the funding call, a snapshot fetch, the
//! submission) and yields the next action.

use vstd::prelude::*;

use crate::account::AccountData;
use crate::account::snapshot_ready;
use crate::abi::ContractInterface;
use crate::contract::CallResult;
use crate::contract::GoshContract;
use crate::contract::is_call_plan;
use crate::errors::ContractError;
use crate::keys::KeyPair;
use crate::message::CallMessage;
use crate::message::DeployMessage;
use crate::message::FUNDING_AMOUNT_NANOTOKENS;
use crate::message::base64_of;
use crate::message::build_deploy_message;
use crate::message::constructor_name;
use crate::message::fits_base64;
use crate::message::funding_call_args;
use crate::message::funding_params_shape;
use crate::message::is_funding_args;
use crate::message::lemma_funding_args_conform;

verus! {

/// Number of funding-poll observations allowed before deployment fails.
pub const MAX_FUNDING_POLLS: u64 = 30;

/// Time units waited before each funding-poll observation.
pub const POLL_INTERVAL_UNITS: u64 = 2;

/// What one funding-poll observation decides.
#[derive(Clone, Copy, Debug, PartialEq, Eq, Structural)]
pub enum PollDecision {
    /// The account is ready: stop polling, deployment proceeds.
    Funded,
    /// Not ready yet: wait one interval and observe again.
    Retry { observations_made: u64 },
    /// Not ready, and the observation budget is spent: deployment fails.
    TimedOut,
}

/// Decides one funding-poll observation. The first ready snapshot ends the
/// poll; any other keeps polling until the budget of
/// [`MAX_FUNDING_POLLS`] observations is spent.
pub fn poll_step(observations_made: u64, snapshot: &AccountData) -> (d: PollDecision)
    requires
        observations_made < MAX_FUNDING_POLLS,
    ensures
        snapshot_ready(*snapshot) ==> d == PollDecision::Funded,
        !snapshot_ready(*snapshot) && observations_made + 1 < MAX_FUNDING_POLLS ==> d
            == (PollDecision::Retry { observations_made: (observations_made + 1) as u64 }),
        !snapshot_ready(*snapshot) && observations_made + 1 == MAX_FUNDING_POLLS ==> d
            == PollDecision::TimedOut,
{
    if snapshot.is_ready_for_deploy() {
        PollDecision::Funded
    } else if observations_made + 1 < MAX_FUNDING_POLLS {
        PollDecision::Retry { observations_made: observations_made + 1 }
    } else {
        PollDecision::TimedOut
    }
}

/// No snapshot among the first `n` observed allows deployment.
pub open spec fn none_ready_prefix(obs: Seq<AccountData>, n: int) -> bool {
    forall|j: int| 0 <= j < n ==> !snapshot_ready(#[trigger] obs[j])
}

/// How a funding poll against a stream of observations ends.
#[derive(Clone, Copy, Debug, PartialEq, Eq, Structural)]
pub enum PollRun {
    /// A ready snapshot was observed; no further polls were issued.
    Funded { observations_used: u64, waited_units: u64 },
    /// The full observation budget was spent without a ready snapshot.
    TimedOut { observations_used: u64, waited_units: u64 },
    /// The stream ended before the poll could decide.
    Exhausted { observations_used: u64 },
}

/// Runs the funding poll against a stream of snapshots, one observation per
/// poll interval: the poll ends at the first ready snapshot, issuing no
/// further observations, or times out after exactly
/// [`MAX_FUNDING_POLLS`] observations, having waited one interval per
/// observation.
pub fn run_funding_poll(observations: &Vec<AccountData>) -> (r: PollRun)
    ensures
        r matches PollRun::Funded { observations_used: n, waited_units: w } ==> 1 <= n
            <= MAX_FUNDING_POLLS && n <= observations@.len() && snapshot_ready(
            observations@[n - 1],
        ) && none_ready_prefix(observations@, n - 1) && w == n * POLL_INTERVAL_UNITS,
        r matches PollRun::TimedOut { observations_used: n, waited_units: w } ==> n
            == MAX_FUNDING_POLLS && observations@.len() >= MAX_FUNDING_POLLS && none_ready_prefix(
            observations@,
            MAX_FUNDING_POLLS as int,
        ) && w == MAX_FUNDING_POLLS * POLL_INTERVAL_UNITS,
        r matches PollRun::Exhausted { observations_used: n } ==> n == observations@.len()
            && observations@.len() < MAX_FUNDING_POLLS && none_ready_prefix(
            observations@,
            observations@.len() as int,
        ),
        observations@.len() >= MAX_FUNDING_POLLS ==> !(r is Exhausted),
{
    let mut made: usize = 0;
    let mut waited: u64 = 0;
    loop
        invariant
            (made as u64) < MAX_FUNDING_POLLS,
            made <= observations@.len(),
            none_ready_prefix(observations@, made as int),
            waited == (made as u64) * POLL_INTERVAL_UNITS,
        decreases MAX_FUNDING_POLLS - made,
    {
        if made >= observations.len() {
            return PollRun::Exhausted { observations_used: made as u64 };
        }
        // One poll interval passes before each observation.
        waited = waited + POLL_INTERVAL_UNITS;
        let snap = observations[made];
        made = made + 1;
        match poll_step((made - 1) as u64, &snap) {
            PollDecision::Funded => {
                return PollRun::Funded { observations_used: made as u64, waited_units: waited };
            },
            PollDecision::TimedOut => {
                return PollRun::TimedOut { observations_used: made as u64, waited_units: waited };
            },
            PollDecision::Retry { .. } => {
            },
        }
    }
}

/// Where the deployment of one contract stands.
#[derive(Clone, Copy, Debug, PartialEq, Eq, Structural)]
pub enum DeployPhase {
    /// The funding call has been handed to the network client.
    Funding,
    /// Funding was accepted; snapshots are being observed.
    WaitingForFunds { observations_made: u64, waited_units: u64 },
    /// A ready snapshot was observed; the deploy message can be built.
    Ready,
    /// The deploy message has been handed to the network client.
    Submitting,
    /// A fatal failure; terminal, nothing is retried or rolled back.
    Failed,
}

/// The deployment of one contract: its future identity, bound once at the
/// start and never recomputed, and the phase the workflow is in.
pub struct Deployer {
    pub address: String,
    pub pretty_name: String,
    pub abi: ContractInterface,
    pub keys: KeyPair,
    pub code_image: Vec<u8>,
    pub phase: DeployPhase,
}

/// The observations made so far in a waiting phase.
pub open spec fn waiting_observations(p: DeployPhase) -> u64 {
    match p {
        DeployPhase::WaitingForFunds { observations_made, .. } => observations_made,
        _ => 0,
    }
}

/// The wait accounted so far in a waiting phase.
pub open spec fn waiting_waited(p: DeployPhase) -> u64 {
    match p {
        DeployPhase::WaitingForFunds { waited_units, .. } => waited_units,
        _ => 0,
    }
}

/// The two deployers describe the same contract: equal address, name,
/// interface, keys and code image. Every step of the machine preserves this.
pub open spec fn same_identity(a: Deployer, b: Deployer) -> bool {
    &&& a.address@ == b.address@
    &&& a.pretty_name@ == b.pretty_name@
    &&& a.abi == b.abi
    &&& a.keys.public@ == b.keys.public@ && a.keys.secret@ == b.keys.secret@
    &&& a.code_image@ == b.code_image@
}

impl Deployer {
    /// The machine is well formed: a well-formed interface description, a
    /// code image the encoder accepts, and consistent poll accounting — one
    /// interval waited per observation made, plus the one pending.
    pub open spec fn wf(self) -> bool {
        &&& self.abi.wf()
        &&& fits_base64(self.code_image@)
        &&& match self.phase {
            DeployPhase::WaitingForFunds { observations_made: k, waited_units: w } => k
                < MAX_FUNDING_POLLS && w == (k + 1) * POLL_INTERVAL_UNITS,
            _ => true,
        }
    }

    /// Begins a deployment at its derived future address: builds the funding
    /// call — `sendTransaction` on the funding source, moving the fixed
    /// amount to the address with bouncing off — and enters the funding
    /// phase. A funding source whose interface does not declare a
    /// conformant `sendTransaction` is rejected before any network I/O;
    /// such a failure, like any funding failure, is fatal.
    pub fn start(
        address: String,
        pretty_name: &str,
        abi: ContractInterface,
        keys: KeyPair,
        code_image: Vec<u8>,
        giver: &GoshContract,
    ) -> (r: Result<(Deployer, CallMessage), ContractError>)
        requires
            giver.wf(),
            abi.wf(),
            fits_base64(code_image@),
        ensures
            r matches Ok(pair) ==> {
                &&& pair.0.wf()
                &&& pair.0.address@ == address@
                &&& pair.0.pretty_name@ == pretty_name@
                &&& pair.0.abi == abi
                &&& pair.0.keys.public@ == keys.public@ && pair.0.keys.secret@ == keys.secret@
                &&& pair.0.code_image@ == code_image@
                &&& pair.0.phase == DeployPhase::Funding
                &&& is_call_plan(*giver, "sendTransaction"@, pair.1.args@, pair.1)
                &&& is_funding_args(pair.1.args@, address@, FUNDING_AMOUNT_NANOTOKENS)
            },
            r is Ok <==> giver.abi.declares("sendTransaction"@) && funding_params_shape(
                giver.abi.decl_of("sendTransaction"@).inputs@,
            ),
            r matches Err(e) ==> e is Encoding,
    {
        let args = funding_call_args(address.as_str(), FUNDING_AMOUNT_NANOTOKENS);
        proof {
            lemma_funding_args_conform(
                giver.abi.decl_of("sendTransaction"@).inputs@,
                args@,
                address@,
                FUNDING_AMOUNT_NANOTOKENS,
            );
        }
        match giver.call_plan("sendTransaction", args) {
            Ok(m) => {
                let deployer = Deployer {
                    address,
                    pretty_name: pretty_name.to_owned(),
                    abi,
                    keys,
                    code_image,
                    phase: DeployPhase::Funding,
                };
                Ok((deployer, m))
            },
            Err(e) => Err(e),
        }
    }

    /// Consumes the outcome of the funding call. Success schedules the first
    /// snapshot observation after one poll interval; any failure is fatal
    /// and propagates unchanged.
    pub fn on_funding_result(&mut self, result: Result<CallResult, ContractError>) -> (r: Result<
        u64,
        ContractError,
    >)
        requires
            old(self).wf(),
            old(self).phase == DeployPhase::Funding,
        ensures
            final(self).wf(),
            same_identity(*old(self), *final(self)),
            result is Ok ==> final(self).phase == (DeployPhase::WaitingForFunds {
                observations_made: 0,
                waited_units: POLL_INTERVAL_UNITS,
            }) && r == Ok::<u64, ContractError>(POLL_INTERVAL_UNITS),
            result is Err ==> final(self).phase == DeployPhase::Failed && r is Err,
            result matches Err(e) ==> r == Err::<u64, ContractError>(e),
    {
        match result {
            Ok(_) => {
                self.phase = DeployPhase::WaitingForFunds {
                    observations_made: 0,
                    waited_units: POLL_INTERVAL_UNITS,
                };
                Ok(POLL_INTERVAL_UNITS)
            },
            Err(e) => {
                self.phase = DeployPhase::Failed;
                Err(e)
            },
        }
    }

    /// Consumes one snapshot observation. The first ready snapshot ends the
    /// wait and no further poll is issued; any other reschedules one poll
    /// interval later, until the budget of [`MAX_FUNDING_POLLS`]
    /// observations is spent — then the deployment fails with a timeout
    /// that accounts one interval waited per observation.
    pub fn on_snapshot(&mut self, snapshot: &AccountData) -> (r: Result<Option<u64>, ContractError>)
        requires
            old(self).wf(),
            old(self).phase matches DeployPhase::WaitingForFunds { .. },
        ensures
            final(self).wf(),
            same_identity(*old(self), *final(self)),
            snapshot_ready(*snapshot) ==> final(self).phase == DeployPhase::Ready && r == Ok::<
                Option<u64>,
                ContractError,
            >(None),
            !snapshot_ready(*snapshot) && waiting_observations(old(self).phase) + 1
                < MAX_FUNDING_POLLS ==> final(self).phase == (DeployPhase::WaitingForFunds {
                observations_made: (waiting_observations(old(self).phase) + 1) as u64,
                waited_units: (waiting_waited(old(self).phase) + POLL_INTERVAL_UNITS) as u64,
            }) && r == Ok::<Option<u64>, ContractError>(Some(POLL_INTERVAL_UNITS)),
            !snapshot_ready(*snapshot) && waiting_observations(old(self).phase) + 1
                == MAX_FUNDING_POLLS ==> final(self).phase == DeployPhase::Failed && r == Err::<
                Option<u64>,
                ContractError,
            >(
                ContractError::Timeout {
                    observations: MAX_FUNDING_POLLS,
                    waited_units: waiting_waited(old(self).phase),
                },
            ),
    {
        let (observations_made, waited_units): (u64, u64) = match self.phase {
            DeployPhase::WaitingForFunds { observations_made, waited_units } => (
                observations_made,
                waited_units,
            ),
            _ => {
                // Unreachable: the phase is WaitingForFunds by precondition.
                return Err(ContractError::Timeout { observations: 0, waited_units: 0 });
            },
        };
        match poll_step(observations_made, snapshot) {
            PollDecision::Funded => {
                self.phase = DeployPhase::Ready;
                Ok(None)
            },
            PollDecision::Retry { observations_made: next } => {
                self.phase = DeployPhase::WaitingForFunds {
                    observations_made: next,
                    waited_units: waited_units + POLL_INTERVAL_UNITS,
                };
                Ok(Some(POLL_INTERVAL_UNITS))
            },
            PollDecision::TimedOut => {
                self.phase = DeployPhase::Failed;
                Err(
                    ContractError::Timeout {
                        observations: MAX_FUNDING_POLLS,
                        waited_units: waited_units,
                    },
                )
            },
        }
    }

    /// Builds the deploy message once funding is confirmed: the code image
    /// and a constructor call carrying the given header timestamp, signed
    /// with the full keypair. An interface description without a
    /// parameterless constructor is rejected before any network I/O; that
    /// failure is fatal.
    pub fn deploy_message(&mut self, header_time_ms: u64) -> (r: Result<
        DeployMessage,
        ContractError,
    >)
        requires
            old(self).wf(),
            old(self).phase == DeployPhase::Ready,
        ensures
            final(self).wf(),
            same_identity(*old(self), *final(self)),
            r is Ok <==> old(self).abi.declares(constructor_name()) && old(self).abi.decl_of(
                constructor_name(),
            ).inputs@.len() == 0,
            r matches Ok(m) ==> final(self).phase == DeployPhase::Submitting && m.address@
                == old(self).address@ && m.code_b64@ == base64_of(old(self).code_image@)
                && m.workchain_id == 0 && m.function_name@ == constructor_name()
                && m.header_time_ms == header_time_ms && (m.signer matches
                crate::keys::Signer::Keys { keys: k } && k.public@ == old(self).keys.public@
                && k.secret@ == old(self).keys.secret@),
            r is Err ==> final(self).phase == DeployPhase::Failed,
            r matches Err(e) ==> e is Encoding,
    {
        let built = build_deploy_message(
            self.address.as_str(),
            &self.code_image,
            &self.abi,
            &self.keys,
            header_time_ms,
        );
        match built {
            Ok(m) => {
                self.phase = DeployPhase::Submitting;
                Ok(m)
            },
            Err(e) => {
                self.phase = DeployPhase::Failed;
                Err(e)
            },
        }
    }

    /// Consumes the outcome of the one-shot submission. Success yields the
    /// contract identity, bound to the address derived at the start and to
    /// the keys the deployment used; any failure is fatal and propagates
    /// unchanged — the address stays funded but undeployed.
    pub fn finish(self, submitted: Result<CallResult, ContractError>) -> (r: Result<
        GoshContract,
        ContractError,
    >)
        requires
            self.wf(),
            self.phase == DeployPhase::Submitting,
        ensures
            submitted is Ok ==> (r matches Ok(c) && c.wf() && c.address@ == self.address@
                && c.pretty_name@ == self.pretty_name@ && c.abi == self.abi && (c.keys matches Some(
                k,
            ) && k.public@ == self.keys.public@ && k.secret@ == self.keys.secret@)),
            submitted matches Err(e) ==> r == Err::<GoshContract, ContractError>(e),
    {
        match submitted {
            Ok(_) => Ok(
                GoshContract {
                    address: self.address,
                    pretty_name: self.pretty_name,
                    abi: self.abi,
                    keys: Some(self.keys),
                },
            ),
            Err(e) => Err(e),
        }
    }
}

} // verus!
