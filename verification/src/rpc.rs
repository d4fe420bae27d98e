//! The intake pipeline: receives a signed submission, gates it on rollup
//! registration, aggregates the outcomes of the three concurrent
//! verification checks, and drives settlement.
//!
//! The collaborators — the rollup registry, the verification kernel and the
//! on-chain settlement — are external. Their outcomes are handed in as plain
//! values, and every decision taken on them is verified: which error class a
//! failure maps to, and in which order the phases may follow each other.

use vstd::prelude::*;

use crate::signed_tx::SignedTx;

verus! {

/// Which of the three concurrent verification checks is meant.
#[derive(Debug, Clone, Copy, PartialEq, Eq, Structural)]
pub enum CheckKind {
    Signature,
    DryRun,
    StateConsistency,
}

/// The errors surfaced to callers, in two classes: invalid-params
/// (client-caused) and internal (infrastructure-caused).
#[derive(Debug)]
pub enum RpcError {
    /// Client-caused: the manifest names a rollup that is not registered.
    UnregisteredRollup { rollup_id: u32 },
    /// Client-caused: one of the three verification checks failed; carries
    /// which one, and the collaborator's cause string.
    CheckFailed { check: CheckKind, message: String },
    /// Infrastructure-caused: settlement failed after all checks passed.
    SettlementFailed { message: String },
}

impl RpcError {
    /// The invalid-params class: errors the client caused.
    pub open spec fn spec_is_invalid_params(&self) -> bool {
        self is UnregisteredRollup || self is CheckFailed
    }

    /// The internal class: errors the infrastructure caused.
    pub open spec fn spec_is_internal(&self) -> bool {
        self is SettlementFailed
    }

    /// Whether this error belongs to the invalid-params class.
    pub fn is_invalid_params(&self) -> (out: bool)
        ensures
            out == self.spec_is_invalid_params(),
    {
        match self {
            RpcError::UnregisteredRollup { .. } => true,
            RpcError::CheckFailed { .. } => true,
            RpcError::SettlementFailed { .. } => false,
        }
    }

    /// Whether this error belongs to the internal class.
    pub fn is_internal(&self) -> (out: bool)
        ensures
            out == self.spec_is_internal(),
    {
        match self {
            RpcError::SettlementFailed { .. } => true,
            _ => false,
        }
    }
}

/// Law: the two error classes are disjoint — no error is both client-caused
/// and infrastructure-caused.
pub proof fn lemma_error_classes_disjoint(e: RpcError)
    ensures
        !(e.spec_is_invalid_params() && e.spec_is_internal()),
{
}

/// A settlement receipt: carries the identifying hash of the settlement
/// transaction.
#[derive(Debug)]
pub struct SettlementReceipt {
    pub transaction_hash: Vec<u8>,
}

/// The phases of one submission's passage through the pipeline, in order.
#[derive(Debug)]
pub enum SubmitPhase {
    /// Ask the registry whether the manifest's rollup is known.
    NeedRegistration,
    /// Run the three verification checks, concurrently.
    NeedVerification,
    /// Ask the settlement collaborator to submit on-chain.
    NeedSettlement,
    /// Finished: the settlement transaction's hash, or the error.
    Complete(Result<Vec<u8>, RpcError>),
}

/// The outcome of the collaborator interaction that a phase asked for.
#[derive(Debug)]
pub enum SubmitInput {
    /// Whether the registry knows the rollup.
    Registration(bool),
    /// The outcomes of the signature, dry-run and state-consistency checks.
    Verification(Result<(), String>, Result<(), String>, Result<(), String>),
    /// The outcome of on-chain settlement.
    Settlement(Result<SettlementReceipt, String>),
}

/// Whether an input answers what the phase asked for.
pub open spec fn phase_expects(phase: SubmitPhase, input: SubmitInput) -> bool {
    match (phase, input) {
        (SubmitPhase::NeedRegistration, SubmitInput::Registration(_)) => true,
        (SubmitPhase::NeedVerification, SubmitInput::Verification(_, _, _)) => true,
        (SubmitPhase::NeedSettlement, SubmitInput::Settlement(_)) => true,
        _ => false,
    }
}

/// The pipeline's transition function: from a phase and the collaborator
/// outcome it asked for, to the next phase. An input that answers a
/// different phase leaves the phase unchanged.
pub open spec fn spec_send_tx_step(
    rollup_id: u32,
    phase: SubmitPhase,
    input: SubmitInput,
) -> SubmitPhase {
    match (phase, input) {
        (SubmitPhase::NeedRegistration, SubmitInput::Registration(registered)) => {
            if registered {
                SubmitPhase::NeedVerification
            } else {
                SubmitPhase::Complete(Err(RpcError::UnregisteredRollup { rollup_id }))
            }
        },
        (SubmitPhase::NeedVerification, SubmitInput::Verification(sig, dry, state)) => {
            match sig {
                Err(m) => SubmitPhase::Complete(
                    Err(RpcError::CheckFailed { check: CheckKind::Signature, message: m }),
                ),
                Ok(_) => match dry {
                    Err(m) => SubmitPhase::Complete(
                        Err(RpcError::CheckFailed { check: CheckKind::DryRun, message: m }),
                    ),
                    Ok(_) => match state {
                        Err(m) => SubmitPhase::Complete(
                            Err(
                                RpcError::CheckFailed {
                                    check: CheckKind::StateConsistency,
                                    message: m,
                                },
                            ),
                        ),
                        Ok(_) => SubmitPhase::NeedSettlement,
                    },
                },
            }
        },
        (SubmitPhase::NeedSettlement, SubmitInput::Settlement(settlement)) => {
            match settlement {
                Ok(receipt) => SubmitPhase::Complete(Ok(receipt.transaction_hash)),
                Err(m) => SubmitPhase::Complete(Err(RpcError::SettlementFailed { message: m })),
            }
        },
        (other, _) => other,
    }
}

/// The RPC agglayer service implementation: the decision core of the intake
/// pipeline.
pub struct AgglayerImpl {}

impl AgglayerImpl {
    /// Create an instance of the RPC agglayer service.
    pub fn new() -> AgglayerImpl {
        AgglayerImpl {}
    }

    /// The registration gate: succeeds exactly when the registry knows the
    /// manifest's rollup, and otherwise rejects with an invalid-params error
    /// naming that rollup — before any verification work begins.
    pub fn check_rollup_registration(&self, tx: &SignedTx, registered: bool) -> (out: Result<
        (),
        RpcError,
    >)
        ensures
            out is Ok <==> registered,
            !registered ==> out == Err::<(), RpcError>(
                (RpcError::UnregisteredRollup { rollup_id: tx.tx.rollup_id }),
            ),
            out matches Err(e) ==> e.spec_is_invalid_params(),
    {
        if registered {
            Ok(())
        } else {
            Err(RpcError::UnregisteredRollup { rollup_id: tx.tx.rollup_id })
        }
    }

    /// Aggregate the outcomes of the three concurrent verification checks:
    /// succeeds exactly when all three succeeded, and otherwise rejects with
    /// an invalid-params error identifying one failing check and its cause.
    pub fn combine_check_outcomes(
        &self,
        signature: Result<(), String>,
        dry_run: Result<(), String>,
        state_consistency: Result<(), String>,
    ) -> (out: Result<(), RpcError>)
        ensures
            out is Ok <==> (signature is Ok && dry_run is Ok && state_consistency is Ok),
            signature matches Err(m) ==> out == Err::<(), RpcError>(
                (RpcError::CheckFailed { check: CheckKind::Signature, message: m }),
            ),
            signature is Ok ==> (dry_run matches Err(m) ==> out == Err::<(), RpcError>(
                (RpcError::CheckFailed { check: CheckKind::DryRun, message: m }),
            )),
            signature is Ok && dry_run is Ok ==> (state_consistency matches Err(m) ==> out
                == Err::<(), RpcError>(
                (RpcError::CheckFailed { check: CheckKind::StateConsistency, message: m }),
            )),
            out matches Err(e) ==> e.spec_is_invalid_params(),
    {
        match signature {
            Err(m) => Err(RpcError::CheckFailed { check: CheckKind::Signature, message: m }),
            Ok(_) => match dry_run {
                Err(m) => Err(RpcError::CheckFailed { check: CheckKind::DryRun, message: m }),
                Ok(_) => match state_consistency {
                    Err(m) => Err(
                        RpcError::CheckFailed { check: CheckKind::StateConsistency, message: m },
                    ),
                    Ok(_) => Ok(()),
                },
            },
        }
    }

    /// Map the settlement collaborator's outcome to the caller's result: the
    /// settlement transaction's hash on success, an internal error — never
    /// an invalid-params one — on failure.
    pub fn settlement_outcome(&self, settlement: Result<SettlementReceipt, String>) -> (out:
        Result<Vec<u8>, RpcError>)
        ensures
            settlement matches Ok(receipt) ==> out == Ok::<Vec<u8>, RpcError>(
                receipt.transaction_hash,
            ),
            settlement matches Err(m) ==> out == Err::<Vec<u8>, RpcError>(
                (RpcError::SettlementFailed { message: m }),
            ),
            out matches Err(e) ==> e.spec_is_internal(),
    {
        match settlement {
            Ok(receipt) => Ok(receipt.transaction_hash),
            Err(m) => Err(RpcError::SettlementFailed { message: m }),
        }
    }

    /// Drive one submission one phase forward, from the outcome of the
    /// collaborator interaction the current phase asked for. The host runs
    /// the collaborators — concurrently, for the verification phase — and
    /// hands their outcomes in; every decision on them is taken here.
    pub fn send_tx_step(&self, tx: &SignedTx, phase: SubmitPhase, input: SubmitInput) -> (next:
        SubmitPhase)
        requires
            phase_expects(phase, input),
        ensures
            next == spec_send_tx_step(tx.tx.rollup_id, phase, input),
    {
        match (phase, input) {
            (SubmitPhase::NeedRegistration, SubmitInput::Registration(registered)) => {
                match self.check_rollup_registration(tx, registered) {
                    Ok(_) => SubmitPhase::NeedVerification,
                    Err(e) => SubmitPhase::Complete(Err(e)),
                }
            },
            (SubmitPhase::NeedVerification, SubmitInput::Verification(sig, dry, state)) => {
                match self.combine_check_outcomes(sig, dry, state) {
                    Ok(_) => SubmitPhase::NeedSettlement,
                    Err(e) => SubmitPhase::Complete(Err(e)),
                }
            },
            (SubmitPhase::NeedSettlement, SubmitInput::Settlement(settlement)) => {
                match self.settlement_outcome(settlement) {
                    Ok(hash) => SubmitPhase::Complete(Ok(hash)),
                    Err(e) => SubmitPhase::Complete(Err(e)),
                }
            },
            _ => unreached(),
        }
    }
}

/// Law: a submission whose rollup is not registered is rejected at the
/// registration gate with an invalid-params error naming that rollup; the
/// pipeline never reaches the verification or settlement phases for it.
pub proof fn lemma_unregistered_short_circuits(rollup_id: u32)
    ensures
        spec_send_tx_step(
            rollup_id,
            SubmitPhase::NeedRegistration,
            SubmitInput::Registration(false),
        ) == SubmitPhase::Complete(Err(RpcError::UnregisteredRollup { rollup_id })),
{
}

/// Law: where at least one of the three concurrent checks fails, the
/// pipeline completes with an invalid-params error and never reaches the
/// settlement phase.
pub proof fn lemma_failed_check_never_settles(
    rollup_id: u32,
    sig: Result<(), String>,
    dry: Result<(), String>,
    state: Result<(), String>,
)
    requires
        sig is Err || dry is Err || state is Err,
    ensures
        spec_send_tx_step(
            rollup_id,
            SubmitPhase::NeedVerification,
            SubmitInput::Verification(sig, dry, state),
        ) matches SubmitPhase::Complete(r) && r matches Err(e) && e.spec_is_invalid_params(),
{
}

/// Law: the settlement phase is reached only from the verification phase,
/// and only where all three checks succeeded.
pub proof fn lemma_settlement_only_after_all_checks(
    rollup_id: u32,
    phase: SubmitPhase,
    input: SubmitInput,
)
    requires
        phase_expects(phase, input),
        spec_send_tx_step(rollup_id, phase, input) is NeedSettlement,
    ensures
        phase is NeedVerification,
        input matches SubmitInput::Verification(sig, dry, state) && sig is Ok && dry is Ok
            && state is Ok,
{
}

/// Law: where all three checks succeed but settlement fails, the pipeline
/// completes with an internal error, distinct in kind from the
/// invalid-params class of the client-caused rejections.
pub proof fn lemma_settlement_failure_is_internal(rollup_id: u32, message: String)
    ensures
        spec_send_tx_step(
            rollup_id,
            SubmitPhase::NeedSettlement,
            SubmitInput::Settlement(Err(message)),
        ) == SubmitPhase::Complete(
            Err(RpcError::SettlementFailed { message }),
        ),
        (RpcError::SettlementFailed { message }).spec_is_internal(),
        !(RpcError::SettlementFailed { message }).spec_is_invalid_params(),
{
}

} // verus!
