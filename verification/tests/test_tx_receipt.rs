use bluestation::tx_receipt::{TxFault, TxMark, TxReceipt, TxState};

#[test]
fn receipt_observes_signal_transitions() {
    let (receipt, reporter) = TxReceipt::new(true);
    assert_eq!(reporter.get_state(), TxState::Pending);
    reporter.mark_transmitted().unwrap();
    assert_eq!(receipt.get_state(), TxState::Transmitted);
    reporter.mark_acknowledged().unwrap();
    assert_eq!(receipt.get_state(), TxState::Acknowledged);
}

#[test]
fn cloned_signal_shares_state() {
    let (receipt, reporter) = TxReceipt::new(false);
    let signal2 = reporter.clone();
    signal2.mark_transmitted().unwrap();
    assert_eq!(receipt.get_state(), TxState::Transmitted);
    assert_eq!(reporter.get_state(), TxState::Transmitted);
}

#[test]
#[should_panic(expected = "invalid transition")]
fn double_mark_transmitted_panics() {
    let (_receipt, reporter) = TxReceipt::new(false);
    reporter.mark_transmitted().unwrap();
    if let Err(fault) = reporter.mark_transmitted() {
        assert_eq!(
            fault,
            TxFault::InvalidTransition {
                from: TxState::Pending,
                to: TxState::Transmitted,
                actual: TxState::Transmitted,
            }
        );
        panic!("{}", fault.message());
    }
}

#[test]
#[should_panic(expected = "invalid transition")]
fn mark_acknowledged_from_pending_panics() {
    let (_receipt, reporter) = TxReceipt::new(true);
    assert!(reporter.ack_expected());
    // must be Transmitted first
    if let Err(fault) = reporter.mark_acknowledged() {
        assert_eq!(
            fault,
            TxFault::InvalidTransition {
                from: TxState::Transmitted,
                to: TxState::Acknowledged,
                actual: TxState::Pending,
            }
        );
        panic!("{}", fault.message());
    }
}

#[test]
fn double_mark_reports_the_state_it_found() {
    let (receipt, reporter) = TxReceipt::new(false);
    assert_eq!(reporter.mark_transmitted(), Ok(()));
    assert_eq!(
        reporter.mark_transmitted(),
        Err(TxFault::InvalidTransition {
            from: TxState::Pending,
            to: TxState::Transmitted,
            actual: TxState::Transmitted,
        })
    );
    // A refused mark changes nothing.
    assert_eq!(receipt.get_state(), TxState::Transmitted);
}

#[test]
fn acknowledge_needs_an_expected_ack() {
    let (receipt, reporter) = TxReceipt::new(false);
    assert!(!reporter.ack_expected());
    assert!(!receipt.ack_expected());
    assert!(TxReceipt::new(true).1.ack_expected());
    reporter.mark_transmitted().unwrap();
    // A caller that breaks the precondition is told so, and nothing changes.
    assert_eq!(
        reporter.mark_acknowledged(),
        Err(TxFault::AckNotExpected { mark: TxMark::Acknowledged })
    );
    assert_eq!(reporter.mark_lost(), Err(TxFault::AckNotExpected { mark: TxMark::Lost }));
    assert_eq!(receipt.get_state(), TxState::Transmitted);
    assert!(receipt.is_in_final_state());
}

#[test]
fn discard_and_loss_are_final() {
    let (receipt, reporter) = TxReceipt::new(true);
    assert!(!receipt.is_in_final_state());
    reporter.mark_discarded().unwrap();
    assert_eq!(receipt.get_state(), TxState::Discarded);
    assert!(receipt.is_in_final_state());
    assert!(!receipt.is_transmitted());

    let (receipt, reporter) = TxReceipt::new(true);
    reporter.mark_transmitted().unwrap();
    assert!(receipt.is_transmitted());
    assert!(!receipt.is_in_final_state());
    assert!(!receipt.is_acknowledged());
    reporter.mark_lost().unwrap();
    assert_eq!(receipt.get_state(), TxState::Lost);
    assert!(receipt.is_in_final_state());
    assert!(receipt.is_transmitted());
    assert!(!receipt.is_acknowledged());
}

#[test]
fn reporters_outlive_their_receipt() {
    let (receipt, reporter) = TxReceipt::new(true);
    let second = reporter.clone();
    assert!(second.ack_expected());
    assert!(receipt.clone().ack_expected());
    assert!(!TxReceipt::new(false).1.clone().ack_expected());
    drop(receipt);
    reporter.mark_transmitted().unwrap();
    assert_eq!(second.get_state(), TxState::Transmitted);
    second.mark_acknowledged().unwrap();
    assert_eq!(reporter.get_state(), TxState::Acknowledged);
}

#[test]
fn state_bytes() {
    assert_eq!(TxState::Pending.raw(), 0);
    assert_eq!(TxState::Discarded.raw(), 1);
    assert_eq!(TxState::Transmitted.raw(), 2);
    assert_eq!(TxState::Lost.raw(), 3);
    assert_eq!(TxState::Acknowledged.raw(), 4);
    for v in 0u8..=4 {
        assert_eq!(TxState::from_raw(v).raw(), v);
    }
    assert_eq!(TxState::from_raw(200), TxState::Acknowledged);
}

#[test]
fn legal_marks_never_go_back() {
    // Every legal sequence of marks, observed after each one.
    let sequences: Vec<(bool, Vec<TxMark>)> = vec![
        (false, vec![TxMark::Transmitted]),
        (false, vec![TxMark::Discarded]),
        (true, vec![TxMark::Transmitted, TxMark::Acknowledged]),
        (true, vec![TxMark::Transmitted, TxMark::Lost]),
        (true, vec![TxMark::Discarded]),
    ];
    for (expects_ack, marks) in sequences {
        let mut state = TxState::Pending;
        for mark in marks {
            let next = state.advance(expects_ack, mark).unwrap();
            assert!(next.raw() > state.raw());
            state = next;
        }
        assert!(state.is_final(expects_ack));
        for mark in [TxMark::Transmitted, TxMark::Discarded, TxMark::Acknowledged, TxMark::Lost] {
            assert_eq!(state.advance(expects_ack, mark), None);
        }
    }
    assert_eq!(TxState::Pending.advance(true, TxMark::Acknowledged), None);
    assert_eq!(TxState::Transmitted.advance(false, TxMark::Lost), None);
}

#[test]
fn faults_in_words() {
    assert_eq!(
        TxFault::AckNotExpected { mark: TxMark::Acknowledged }.message(),
        "TxReporter: cannot mark as acknowledged a message that does not expect an ACK"
    );
    assert_eq!(
        TxFault::AckNotExpected { mark: TxMark::Lost }.message(),
        "TxReporter: cannot mark as lost a message that does not expect an ACK"
    );
    assert_eq!(
        TxFault::InvalidTransition {
            from: TxState::Pending,
            to: TxState::Discarded,
            actual: TxState::Lost
        }
        .message(),
        "TxReporter: invalid transition"
    );
}
