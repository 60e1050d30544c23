use tx_engine::account::ClientAccount;
use tx_engine::chargeback::Chargeback;
use tx_engine::deposit::Deposit;
use tx_engine::dispute::Dispute;
use tx_engine::errors::msg;
use tx_engine::errors::ErrCause;
use tx_engine::errors::TxProcessingError;
use tx_engine::processor::TxProcessorImpl;
use tx_engine::resolve::Resolve;
use tx_engine::state::AppState;
use tx_engine::state::Flag;
use tx_engine::tx::Transaction;
use tx_engine::withdrawal::Withdrawal;

fn account_of(state: &AppState, client: u16) -> ClientAccount {
    *state.accounts.get(&client).unwrap()
}

#[test]
fn scenario_deposits_withdrawal_dispute_chargeback() {
    let processor = TxProcessorImpl::new();
    let mut state = AppState::new();

    processor
        .process(
            &mut state,
            &Transaction::Deposit(Deposit {
                client: 1,
                tx: 1,
                amount: 10_0000,
            }),
        )
        .unwrap();
    processor
        .process(
            &mut state,
            &Transaction::Deposit(Deposit {
                client: 1,
                tx: 2,
                amount: 5_0000,
            }),
        )
        .unwrap();
    processor
        .process(
            &mut state,
            &Transaction::Withdrawal(Withdrawal {
                client: 1,
                tx: 3,
                amount: 3_0000,
            }),
        )
        .unwrap();

    assert_eq!(
        account_of(&state, 1),
        ClientAccount {
            client: 1,
            available: 12_0000,
            held: 0,
            total: 12_0000,
            locked: false,
        }
    );

    processor
        .process(&mut state, &Transaction::Dispute(Dispute { client: 1, tx: 1 }))
        .unwrap();

    assert_eq!(
        account_of(&state, 1),
        ClientAccount {
            client: 1,
            available: 2_0000,
            held: 10_0000,
            total: 12_0000,
            locked: false,
        }
    );

    processor
        .process(
            &mut state,
            &Transaction::Chargeback(Chargeback { client: 1, tx: 1 }),
        )
        .unwrap();

    assert_eq!(
        account_of(&state, 1),
        ClientAccount {
            client: 1,
            available: 2_0000,
            held: 0,
            total: 2_0000,
            locked: true,
        }
    );

    let err = processor
        .process(
            &mut state,
            &Transaction::Withdrawal(Withdrawal {
                client: 1,
                tx: 4,
                amount: 1_0000,
            }),
        )
        .unwrap_err();
    assert_eq!(
        err,
        TxProcessingError::Withdrawal(ErrCause::ClientAccountLocked)
    );
    assert_eq!(
        account_of(&state, 1),
        ClientAccount {
            client: 1,
            available: 2_0000,
            held: 0,
            total: 2_0000,
            locked: true,
        }
    );
}

#[test]
fn scenario_dispute_on_unknown_tx_creates_nothing() {
    let processor = TxProcessorImpl::new();
    let mut state = AppState::new();

    let err = processor
        .process(&mut state, &Transaction::Dispute(Dispute { client: 1, tx: 9 }))
        .unwrap_err();

    assert_eq!(err, TxProcessingError::Dispute(ErrCause::ClientTxNotFound));
    assert!(state.accounts.is_empty());
    assert!(state.deposits.is_empty());
}

#[test]
fn scenario_second_withdrawal_of_sixty_percent_fails() {
    let processor = TxProcessorImpl::new();
    let mut state = AppState::new();

    processor
        .process(
            &mut state,
            &Transaction::Deposit(Deposit {
                client: 1,
                tx: 1,
                amount: 100_0000,
            }),
        )
        .unwrap();
    processor
        .process(
            &mut state,
            &Transaction::Withdrawal(Withdrawal {
                client: 1,
                tx: 2,
                amount: 60_0000,
            }),
        )
        .unwrap();
    let err = processor
        .process(
            &mut state,
            &Transaction::Withdrawal(Withdrawal {
                client: 1,
                tx: 3,
                amount: 60_0000,
            }),
        )
        .unwrap_err();

    assert_eq!(
        err,
        TxProcessingError::Withdrawal(ErrCause::InsufficientFunds)
    );
    assert_eq!(
        account_of(&state, 1),
        ClientAccount {
            client: 1,
            available: 40_0000,
            held: 0,
            total: 40_0000,
            locked: false,
        }
    );
}

#[test]
fn total_equals_available_plus_held_throughout() {
    let processor = TxProcessorImpl::new();
    let mut state = AppState::new();
    let events = [
        Transaction::Deposit(Deposit {
            client: 1,
            tx: 1,
            amount: 10_0000,
        }),
        Transaction::Deposit(Deposit {
            client: 2,
            tx: 2,
            amount: 7_5000,
        }),
        Transaction::Withdrawal(Withdrawal {
            client: 1,
            tx: 3,
            amount: 2_0000,
        }),
        Transaction::Dispute(Dispute { client: 1, tx: 1 }),
        Transaction::Resolve(Resolve { client: 1, tx: 1 }),
        Transaction::Dispute(Dispute { client: 2, tx: 2 }),
        Transaction::Chargeback(Chargeback { client: 2, tx: 2 }),
    ];

    for event in events.iter() {
        let _outcome = processor.process(&mut state, event);
        for account in state.accounts.values() {
            assert_eq!(account.total, account.available + account.held);
        }
    }
}

#[test]
fn locked_account_rejects_every_event_kind() {
    let processor = TxProcessorImpl::new();
    let mut state = AppState::new();

    processor
        .process(
            &mut state,
            &Transaction::Deposit(Deposit {
                client: 1,
                tx: 1,
                amount: 10_0000,
            }),
        )
        .unwrap();
    processor
        .process(&mut state, &Transaction::Dispute(Dispute { client: 1, tx: 1 }))
        .unwrap();
    processor
        .process(
            &mut state,
            &Transaction::Chargeback(Chargeback { client: 1, tx: 1 }),
        )
        .unwrap();
    let frozen = account_of(&state, 1);
    assert!(frozen.locked);

    // another deposit for the same client, under a fresh transaction id
    let err = processor
        .process(
            &mut state,
            &Transaction::Deposit(Deposit {
                client: 1,
                tx: 2,
                amount: 1_0000,
            }),
        )
        .unwrap_err();
    assert_eq!(err, TxProcessingError::Deposit(ErrCause::ClientAccountLocked));
    assert_eq!(account_of(&state, 1), frozen);

    let err = processor
        .process(
            &mut state,
            &Transaction::Withdrawal(Withdrawal {
                client: 1,
                tx: 3,
                amount: 1_0000,
            }),
        )
        .unwrap_err();
    assert_eq!(
        err,
        TxProcessingError::Withdrawal(ErrCause::ClientAccountLocked)
    );
    assert_eq!(account_of(&state, 1), frozen);

    // the deposit record is Chargebacked, so the dispute path rejects first
    let err = processor
        .process(&mut state, &Transaction::Dispute(Dispute { client: 1, tx: 1 }))
        .unwrap_err();
    assert_eq!(
        err,
        TxProcessingError::Dispute(ErrCause::ClientTxAlreadyInDispute)
    );
    assert_eq!(account_of(&state, 1), frozen);

    let err = processor
        .process(&mut state, &Transaction::Resolve(Resolve { client: 1, tx: 1 }))
        .unwrap_err();
    assert_eq!(
        err,
        TxProcessingError::Resolve(ErrCause::ClientTxIsNotUnderDispute)
    );
    assert_eq!(account_of(&state, 1), frozen);
}

#[test]
fn rejected_event_leaves_state_unchanged() {
    let processor = TxProcessorImpl::new();
    let mut state = AppState::new();

    processor
        .process(
            &mut state,
            &Transaction::Deposit(Deposit {
                client: 1,
                tx: 1,
                amount: 10_0000,
            }),
        )
        .unwrap();
    let account_before = account_of(&state, 1);
    let record_before = *state.deposits.get(&1).unwrap();

    let err = processor
        .process(
            &mut state,
            &Transaction::Deposit(Deposit {
                client: 1,
                tx: 2,
                amount: -5_0000,
            }),
        )
        .unwrap_err();

    assert_eq!(
        err,
        TxProcessingError::Deposit(ErrCause::AmountLessThanOrEqualToZero)
    );
    assert_eq!(state.accounts.len(), 1);
    assert_eq!(state.deposits.len(), 1);
    assert_eq!(account_of(&state, 1), account_before);
    assert_eq!(*state.deposits.get(&1).unwrap(), record_before);
}

#[test]
fn deposit_then_withdrawal_of_same_amount_restores_balances() {
    let processor = TxProcessorImpl::new();
    let mut state = AppState::new();

    processor
        .process(
            &mut state,
            &Transaction::Deposit(Deposit {
                client: 1,
                tx: 1,
                amount: 25_0000,
            }),
        )
        .unwrap();
    let before = account_of(&state, 1);

    processor
        .process(
            &mut state,
            &Transaction::Deposit(Deposit {
                client: 1,
                tx: 2,
                amount: 4_2500,
            }),
        )
        .unwrap();
    processor
        .process(
            &mut state,
            &Transaction::Withdrawal(Withdrawal {
                client: 1,
                tx: 3,
                amount: 4_2500,
            }),
        )
        .unwrap();

    let after = account_of(&state, 1);
    assert_eq!(after.available, before.available);
    assert_eq!(after.total, before.total);
    assert_eq!(after.held, before.held);
}

#[test]
fn dispute_then_resolve_restores_balances_and_ends_resolved() {
    let processor = TxProcessorImpl::new();
    let mut state = AppState::new();

    processor
        .process(
            &mut state,
            &Transaction::Deposit(Deposit {
                client: 1,
                tx: 1,
                amount: 8_0000,
            }),
        )
        .unwrap();
    let before = account_of(&state, 1);

    processor
        .process(&mut state, &Transaction::Dispute(Dispute { client: 1, tx: 1 }))
        .unwrap();
    let disputed = account_of(&state, 1);
    assert_eq!(disputed.total, before.total);
    assert_eq!(disputed.held, before.held + 8_0000);

    processor
        .process(&mut state, &Transaction::Resolve(Resolve { client: 1, tx: 1 }))
        .unwrap();

    let after = account_of(&state, 1);
    assert_eq!(after.available, before.available);
    assert_eq!(after.held, before.held);
    assert_eq!(after.total, before.total);
    assert_eq!(state.deposits.get(&1).unwrap().flag, Flag::Resolved);
}

#[test]
fn dispute_then_chargeback_reverses_and_locks() {
    let processor = TxProcessorImpl::new();
    let mut state = AppState::new();

    processor
        .process(
            &mut state,
            &Transaction::Deposit(Deposit {
                client: 1,
                tx: 1,
                amount: 8_0000,
            }),
        )
        .unwrap();
    processor
        .process(
            &mut state,
            &Transaction::Deposit(Deposit {
                client: 1,
                tx: 2,
                amount: 3_0000,
            }),
        )
        .unwrap();
    processor
        .process(&mut state, &Transaction::Dispute(Dispute { client: 1, tx: 1 }))
        .unwrap();
    let disputed = account_of(&state, 1);

    processor
        .process(
            &mut state,
            &Transaction::Chargeback(Chargeback { client: 1, tx: 1 }),
        )
        .unwrap();

    let after = account_of(&state, 1);
    assert_eq!(after.held, disputed.held - 8_0000);
    assert_eq!(after.total, disputed.total - 8_0000);
    assert_eq!(after.available, disputed.available);
    assert!(after.locked);
    assert_eq!(state.deposits.get(&1).unwrap().flag, Flag::Chargebacked);
}

#[test]
fn resolve_on_resolved_deposit_is_rejected() {
    let processor = TxProcessorImpl::new();
    let mut state = AppState::new();

    processor
        .process(
            &mut state,
            &Transaction::Deposit(Deposit {
                client: 1,
                tx: 1,
                amount: 8_0000,
            }),
        )
        .unwrap();
    processor
        .process(&mut state, &Transaction::Dispute(Dispute { client: 1, tx: 1 }))
        .unwrap();
    processor
        .process(&mut state, &Transaction::Resolve(Resolve { client: 1, tx: 1 }))
        .unwrap();

    let err = processor
        .process(&mut state, &Transaction::Resolve(Resolve { client: 1, tx: 1 }))
        .unwrap_err();
    assert_eq!(
        err,
        TxProcessingError::Resolve(ErrCause::ClientTxIsNotUnderDispute)
    );

    // a resolved deposit cannot be disputed a second time either
    let err = processor
        .process(&mut state, &Transaction::Dispute(Dispute { client: 1, tx: 1 }))
        .unwrap_err();
    assert_eq!(
        err,
        TxProcessingError::Dispute(ErrCause::ClientTxAlreadyInDispute)
    );
}

#[test]
fn withdrawal_from_unknown_client_is_rejected() {
    let processor = TxProcessorImpl::new();
    let mut state = AppState::new();

    let err = processor
        .process(
            &mut state,
            &Transaction::Withdrawal(Withdrawal {
                client: 5,
                tx: 1,
                amount: 1_0000,
            }),
        )
        .unwrap_err();
    assert_eq!(
        err,
        TxProcessingError::Withdrawal(ErrCause::ClientAccountNotFound)
    );
}

#[test]
fn error_messages_name_operation_and_cause() {
    assert_eq!(
        msg("Deposit", &ErrCause::AmountLessThanOrEqualToZero),
        "Deposit: amount less than or equal to 0"
    );
    assert_eq!(
        TxProcessingError::Withdrawal(ErrCause::InsufficientFunds).message(),
        "Withdrawal: insufficient funds"
    );
    assert_eq!(
        TxProcessingError::Dispute(ErrCause::ClientTxNotFound).message(),
        "Dispute: transaction not found"
    );
    assert_eq!(
        TxProcessingError::Chargeback(ErrCause::ClientTxIsNotUnderDispute).message(),
        "Chargeback: transaction is not under dispute"
    );
    assert_eq!(
        TxProcessingError::Resolve(ErrCause::ClientDidNotMatch).message(),
        "Resolve: client in dispute/resolve/chargeback does not match client in deposit"
    );
}
