use agglayer_core::codec::Proof;
use agglayer_core::rpc::{
    AgglayerImpl, CheckKind, RpcError, SettlementReceipt, SubmitInput, SubmitPhase,
};
use agglayer_core::signed_tx::{AuthMethod, ProofManifest, SignedTx, Zkp};

fn make_tx(rollup_id: u32) -> SignedTx {
    let proof_bytes = vec![0u8; 768];
    SignedTx {
        tx: ProofManifest {
            rollup_id,
            last_verified_batch: 10,
            new_verified_batch: 11,
            zkp: Zkp {
                new_state_root: vec![1u8; 32],
                new_local_exit_root: vec![2u8; 32],
                proof: Proof::try_from_slice(&proof_bytes).unwrap(),
            },
        },
        auth_method: AuthMethod::Signature,
        signature: None,
        proof_of_consensus: None,
    }
}

#[test]
fn unregistered_rollup_short_circuits() {
    let service = AgglayerImpl::new();
    let tx = make_tx(42);

    let err = service.check_rollup_registration(&tx, false).unwrap_err();
    assert!(matches!(err, RpcError::UnregisteredRollup { rollup_id: 42 }));
    assert!(err.is_invalid_params());
    assert!(!err.is_internal());

    // The pipeline completes at the registration gate: no verification and
    // no settlement phase is ever reached.
    let next = service.send_tx_step(&tx, SubmitPhase::NeedRegistration, SubmitInput::Registration(false));
    match next {
        SubmitPhase::Complete(Err(RpcError::UnregisteredRollup { rollup_id })) => {
            assert_eq!(rollup_id, 42);
        }
        _ => panic!("expected completion with an unregistered-rollup error"),
    }
}

#[test]
fn registered_rollup_proceeds_to_verification() {
    let service = AgglayerImpl::new();
    let tx = make_tx(7);
    assert!(service.check_rollup_registration(&tx, true).is_ok());
    let next = service.send_tx_step(&tx, SubmitPhase::NeedRegistration, SubmitInput::Registration(true));
    assert!(matches!(next, SubmitPhase::NeedVerification));
}

#[test]
fn one_failing_check_yields_invalid_params_and_never_settles() {
    let service = AgglayerImpl::new();
    let tx = make_tx(7);

    let cases: Vec<(Result<(), String>, Result<(), String>, Result<(), String>, CheckKind)> = vec![
        (Err("bad signature".to_string()), Ok(()), Ok(()), CheckKind::Signature),
        (Ok(()), Err("dry run reverted".to_string()), Ok(()), CheckKind::DryRun),
        (Ok(()), Ok(()), Err("roots differ".to_string()), CheckKind::StateConsistency),
    ];
    for (sig, dry, state, expected_kind) in cases {
        let err = service
            .combine_check_outcomes(sig.clone(), dry.clone(), state.clone())
            .unwrap_err();
        match &err {
            RpcError::CheckFailed { check, message } => {
                assert_eq!(*check, expected_kind);
                let expected_message = match expected_kind {
                    CheckKind::Signature => "bad signature",
                    CheckKind::DryRun => "dry run reverted",
                    CheckKind::StateConsistency => "roots differ",
                };
                assert_eq!(message, expected_message);
            }
            other => panic!("expected a check failure, got {other:?}"),
        }
        assert!(err.is_invalid_params());
        assert!(!err.is_internal());

        // The settlement phase is never reached.
        let next = service.send_tx_step(
            &tx,
            SubmitPhase::NeedVerification,
            SubmitInput::Verification(sig, dry, state),
        );
        assert!(matches!(next, SubmitPhase::Complete(Err(RpcError::CheckFailed { .. }))));
    }
}

#[test]
fn all_checks_passing_proceed_to_settlement() {
    let service = AgglayerImpl::new();
    let tx = make_tx(7);
    assert!(service.combine_check_outcomes(Ok(()), Ok(()), Ok(())).is_ok());
    let next = service.send_tx_step(
        &tx,
        SubmitPhase::NeedVerification,
        SubmitInput::Verification(Ok(()), Ok(()), Ok(())),
    );
    assert!(matches!(next, SubmitPhase::NeedSettlement));
}

#[test]
fn settlement_failure_is_an_internal_error() {
    let service = AgglayerImpl::new();
    let tx = make_tx(7);

    let err = service
        .settlement_outcome(Err("nonce too low".to_string()))
        .unwrap_err();
    match &err {
        RpcError::SettlementFailed { message } => assert_eq!(message, "nonce too low"),
        other => panic!("expected a settlement failure, got {other:?}"),
    }
    assert!(err.is_internal());
    assert!(!err.is_invalid_params());

    let next = service.send_tx_step(
        &tx,
        SubmitPhase::NeedSettlement,
        SubmitInput::Settlement(Err("nonce too low".to_string())),
    );
    assert!(matches!(next, SubmitPhase::Complete(Err(RpcError::SettlementFailed { .. }))));
}

#[test]
fn successful_submission_returns_the_settlement_hash() {
    let service = AgglayerImpl::new();
    let tx = make_tx(7);

    let phase = service.send_tx_step(&tx, SubmitPhase::NeedRegistration, SubmitInput::Registration(true));
    assert!(matches!(phase, SubmitPhase::NeedVerification));
    let phase = service.send_tx_step(
        &tx,
        SubmitPhase::NeedVerification,
        SubmitInput::Verification(Ok(()), Ok(()), Ok(())),
    );
    assert!(matches!(phase, SubmitPhase::NeedSettlement));
    let phase = service.send_tx_step(
        &tx,
        SubmitPhase::NeedSettlement,
        SubmitInput::Settlement(Ok(SettlementReceipt { transaction_hash: vec![0xabu8; 32] })),
    );
    match phase {
        SubmitPhase::Complete(Ok(hash)) => assert_eq!(hash, vec![0xabu8; 32]),
        other => panic!("expected completion with the settlement hash, got {other:?}"),
    }
}
