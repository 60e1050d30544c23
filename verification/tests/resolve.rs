use tx_engine::account::ClientAccount;
use tx_engine::deposit::Deposit;
use tx_engine::errors::ErrCause;
use tx_engine::errors::TxProcessingError;
use tx_engine::processor::TxProcessorImpl;
use tx_engine::resolve::Resolve;
use tx_engine::state::AppState;
use tx_engine::state::Flag;
use tx_engine::state::FlaggedDeposit;

#[test]
fn resolve_fails_on_non_existent_deposit() {
    let resolve = Resolve { client: 1, tx: 2 };
    let mut state = AppState::new();
    let err = resolve.process(&mut state, &TxProcessorImpl).unwrap_err();

    assert_eq!(err, TxProcessingError::Resolve(ErrCause::ClientTxNotFound));
}

#[test]
fn resolve_fails_if_tx_not_in_dispute() {
    let client_id = 1;
    let tx_id = 2;
    let resolve = Resolve {
        client: client_id,
        tx: tx_id,
    };
    let mut state = AppState::new();
    state.deposits.insert(
        tx_id,
        FlaggedDeposit {
            deposit: Deposit {
                client: client_id,
                tx: tx_id,
                amount: 20_0000,
            },
            flag: Flag::NotDisputed,
        },
    );
    state.accounts.insert(
        client_id,
        ClientAccount {
            client: client_id,
            available: 10_0000,
            held: 0,
            total: 10_0000,
            locked: false,
        },
    );

    let err = resolve.process(&mut state, &TxProcessorImpl).unwrap_err();
    assert_eq!(
        err,
        TxProcessingError::Resolve(ErrCause::ClientTxIsNotUnderDispute)
    )
}

#[test]
fn resolve_fails_if_client_in_does_not_match() {
    let resolve = Resolve { client: 1, tx: 1 };
    let mut state = AppState::new();
    state.deposits.insert(
        1,
        FlaggedDeposit {
            deposit: Deposit {
                client: 2,
                tx: 1,
                amount: 20_0000,
            },
            flag: Flag::Disputed,
        },
    );

    let err = resolve.process(&mut state, &TxProcessorImpl).unwrap_err();
    assert_eq!(err, TxProcessingError::Resolve(ErrCause::ClientDidNotMatch))
}

#[test]
#[should_panic]
fn resolve_panics_if_account_is_absent_and_diposit_is_present() {
    let resolve = Resolve { client: 1, tx: 1 };
    let mut state = AppState::new();
    state.deposits.insert(
        1,
        FlaggedDeposit {
            deposit: Deposit {
                client: 1,
                tx: 1,
                amount: 20_0000,
            },
            flag: Flag::Disputed,
        },
    );

    resolve.process(&mut state, &TxProcessorImpl).unwrap_err();
}

#[test]
fn resolve_marks_the_deposit_chargebacked() {
    let resolve = Resolve { client: 1, tx: 1 };
    let mut state = AppState::new();
    state.deposits.insert(
        1,
        FlaggedDeposit {
            deposit: Deposit {
                client: 1,
                tx: 1,
                amount: 20_0000,
            },
            flag: Flag::Disputed,
        },
    );

    state.accounts.insert(
        1,
        ClientAccount {
            client: 1,
            available: 20_0000,
            held: 0,
            total: 20_0000,
            locked: false,
        },
    );

    resolve.process(&mut state, &TxProcessorImpl).unwrap();

    assert_eq!(state.deposits.get(&1).unwrap().flag, Flag::Resolved);
}
