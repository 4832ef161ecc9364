use std::cmp::min;

use congestion_control::congestion::{AccountingError, CongestionController, CongestionState};
use congestion_control::factor::DecreaseFactor;
use congestion_control::packet::{ErrorCode, MaxPacketAmountDetails, RejectSignal};

fn factor(num: u64, den: u64) -> DecreaseFactor {
    DecreaseFactor::new(num, den).unwrap()
}

fn liquidity_reject() -> RejectSignal {
    RejectSignal { code: ErrorCode::InsufficientLiquidity, data: vec![] }
}

#[test]
fn doubles_max_amount_on_fulfill() {
    let mut controller = CongestionController::new(1000, 1000, factor(2, 1));

    let amount = controller.get_amount_left_in_window();
    controller.prepare(amount);
    controller.fulfill(amount);
    assert_eq!(controller.get_amount_left_in_window(), 2000);

    let amount = controller.get_amount_left_in_window();
    controller.prepare(amount);
    controller.fulfill(amount);
    assert_eq!(controller.get_amount_left_in_window(), 4000);

    let amount = controller.get_amount_left_in_window();
    controller.prepare(amount);
    controller.fulfill(amount);
    assert_eq!(controller.get_amount_left_in_window(), 8000);
}

#[test]
fn doesnt_overflow_u64() {
    let mut controller = CongestionController::from_parts(
        CongestionState::SlowStart,
        1000,
        factor(2, 1),
        None,
        0,
        u64::MAX - 1,
    );

    let amount = controller.get_amount_left_in_window();
    controller.prepare(amount);
    controller.fulfill(amount);
    assert_eq!(controller.get_amount_left_in_window(), u64::MAX);
}

#[test]
fn additive_increase() {
    let mut controller = CongestionController::from_parts(
        CongestionState::AvoidCongestion,
        1000,
        factor(2, 1),
        None,
        0,
        1000,
    );
    for i in 1..5 {
        let amount = i * 1000;
        controller.prepare(amount);
        controller.fulfill(amount);
        assert_eq!(controller.get_amount_left_in_window(), 1000 + i * 1000);
    }
}

#[test]
fn multiplicative_decrease() {
    let mut controller = CongestionController::from_parts(
        CongestionState::AvoidCongestion,
        1000,
        factor(2, 1),
        None,
        0,
        1000,
    );

    let amount = controller.get_amount_left_in_window();
    controller.prepare(amount);
    controller.reject(amount, &liquidity_reject());
    assert_eq!(controller.get_amount_left_in_window(), 500);

    let amount = controller.get_amount_left_in_window();
    controller.prepare(amount);
    controller.reject(amount, &liquidity_reject());
    assert_eq!(controller.get_amount_left_in_window(), 250);
}

#[test]
fn aimd_combined() {
    let mut controller = CongestionController::from_parts(
        CongestionState::AvoidCongestion,
        1000,
        factor(2, 1),
        None,
        0,
        1000,
    );

    let amount = controller.get_amount_left_in_window();
    controller.prepare(amount);
    controller.fulfill(amount);
    assert_eq!(controller.get_amount_left_in_window(), 2000);

    let amount = controller.get_amount_left_in_window();
    controller.prepare(amount);
    controller.fulfill(amount);
    assert_eq!(controller.get_amount_left_in_window(), 3000);

    let amount = controller.get_amount_left_in_window();
    controller.prepare(amount);
    controller.reject(amount, &liquidity_reject());
    assert_eq!(controller.get_amount_left_in_window(), 1500);

    let amount = controller.get_amount_left_in_window();
    controller.prepare(amount);
    controller.fulfill(amount);
    assert_eq!(controller.get_amount_left_in_window(), 2500);
}

#[test]
fn max_packet_amount() {
    let mut controller = CongestionController::new(1000, 1000, factor(2, 1));
    assert_eq!(controller.get_amount_left_in_window(), 1000);

    controller.prepare(1000);
    controller.reject(
        1000,
        &RejectSignal {
            code: ErrorCode::AmountTooLarge,
            data: MaxPacketAmountDetails::new(100, 10).to_bytes(),
        },
    );
    assert_eq!(controller.get_max_packet_amount(), 100);

    let mut amount = min(
        controller.get_max_packet_amount(),
        controller.get_amount_left_in_window(),
    );
    controller.prepare(amount);
    controller.reject(
        amount,
        &RejectSignal { code: ErrorCode::AmountTooLarge, data: vec![] },
    );
    // it was decreased by the decrease factor
    assert_eq!(controller.get_max_packet_amount(), amount / 2);

    amount = min(
        controller.get_max_packet_amount(),
        controller.get_amount_left_in_window(),
    );
    controller.prepare(amount);
    controller.fulfill(amount);

    amount = min(
        controller.get_max_packet_amount(),
        controller.get_amount_left_in_window(),
    );
    assert_eq!(amount, 50);
}

#[test]
fn max_packet_amount_doesnt_overflow_u64() {
    let mut controller = CongestionController::new(1000, 1000, factor(5, 1));

    controller.prepare(500);
    controller.prepare(500);
    controller.reject(500, &liquidity_reject());

    assert_eq!(controller.get_amount_left_in_window(), 0);
}

#[test]
fn congestion_doesnt_overflow_u64() {
    let mut controller = CongestionController::from_parts(
        CongestionState::AvoidCongestion,
        1000,
        factor(2, 1),
        None,
        0,
        u64::MAX - 1,
    );

    let amount = controller.get_amount_left_in_window();
    controller.prepare(amount);
    controller.fulfill(amount);
    assert_eq!(controller.get_amount_left_in_window(), u64::MAX);
}

#[test]
fn tracking_amount_in_flight() {
    let mut controller = CongestionController::new(1000, 1000, factor(2, 1));
    controller.set_max_packet_amount(600);
    assert_eq!(controller.get_max_packet_amount(), 600);

    controller.prepare(100);
    let mut max_amount = min(
        controller.get_amount_left_in_window(),
        controller.get_max_packet_amount(),
    );
    assert_eq!(max_amount, 600);

    controller.prepare(600);
    max_amount = min(
        controller.get_amount_left_in_window(),
        controller.get_max_packet_amount(),
    );
    assert_eq!(max_amount, 1000 - 600 - 100);
}

#[test]
fn one_way_transition_to_avoid_congestion() {
    let mut controller = CongestionController::new(1000, 1000, factor(2, 1));
    assert_eq!(controller.state, CongestionState::SlowStart);

    controller.prepare(1000);
    controller.reject(1000, &liquidity_reject());
    assert_eq!(controller.state, CongestionState::AvoidCongestion);
    assert_eq!(controller.get_amount_left_in_window(), 500);

    // from here every fulfill follows the additive rule, never the doubling rule
    controller.prepare(500);
    controller.fulfill(500);
    assert_eq!(controller.state, CongestionState::AvoidCongestion);
    assert_eq!(controller.get_amount_left_in_window(), 1500);

    controller.prepare(1500);
    controller.fulfill(1500);
    assert_eq!(controller.state, CongestionState::AvoidCongestion);
    assert_eq!(controller.get_amount_left_in_window(), 2500);
}

#[test]
fn window_never_drops_below_one() {
    let mut controller = CongestionController::new(3, 1, factor(2, 1));
    for _ in 0..8 {
        controller.reject(0, &liquidity_reject());
        assert!(controller.max_in_flight >= 1);
    }
    // 3 -> 1 -> 1 -> ... : the floor of one holds however many rejects come
    assert_eq!(controller.max_in_flight, 1);
}

#[test]
fn no_op_codes_leave_tuning_untouched() {
    let mut controller = CongestionController::new(1000, 7, factor(2, 1));
    controller.set_max_packet_amount(600);
    controller.prepare(600);

    controller.reject(
        600,
        &RejectSignal { code: ErrorCode::Other, data: vec![1, 2, 3] },
    );

    assert_eq!(controller.amount_in_flight, 0);
    assert_eq!(controller.state, CongestionState::SlowStart);
    assert_eq!(controller.max_in_flight, 1000);
    assert_eq!(controller.max_packet_amount, Some(600));
}

#[test]
fn cap_keeps_minimum_of_old_and_new() {
    let mut controller = CongestionController::new(1000, 1000, factor(2, 1));

    // candidate: 1000 * 10 / 100 = 100
    controller.prepare(1000);
    controller.reject(
        1000,
        &RejectSignal {
            code: ErrorCode::AmountTooLarge,
            data: MaxPacketAmountDetails::new(100, 10).to_bytes(),
        },
    );
    assert_eq!(controller.get_max_packet_amount(), 100);

    // a larger candidate (100 * 900 / 100 = 900) leaves the cap where it was
    controller.prepare(100);
    controller.reject(
        100,
        &RejectSignal {
            code: ErrorCode::AmountTooLarge,
            data: MaxPacketAmountDetails::new(100, 900).to_bytes(),
        },
    );
    assert_eq!(controller.get_max_packet_amount(), 100);

    // a smaller candidate (100 * 40 / 100 = 40) lowers it
    controller.prepare(100);
    controller.reject(
        100,
        &RejectSignal {
            code: ErrorCode::AmountTooLarge,
            data: MaxPacketAmountDetails::new(100, 40).to_bytes(),
        },
    );
    assert_eq!(controller.get_max_packet_amount(), 40);
}

#[test]
fn blind_cap_shrink_without_cap_changes_nothing() {
    let mut controller = CongestionController::new(1000, 1000, factor(2, 1));
    controller.prepare(100);
    controller.reject(
        100,
        &RejectSignal { code: ErrorCode::AmountTooLarge, data: vec![] },
    );
    assert_eq!(controller.get_max_packet_amount(), u64::MAX);
    assert_eq!(controller.max_packet_amount, None);
}

#[test]
fn cap_candidate_saturates_at_u64_max() {
    let mut controller = CongestionController::new(u64::MAX, 1000, factor(2, 1));
    controller.prepare(u64::MAX);
    // u64::MAX * 2 / 1 leaves the 64-bit range: the cap saturates
    controller.reject(
        u64::MAX,
        &RejectSignal {
            code: ErrorCode::AmountTooLarge,
            data: MaxPacketAmountDetails::new(1, 2).to_bytes(),
        },
    );
    assert_eq!(controller.get_max_packet_amount(), u64::MAX);
    assert_eq!(controller.max_packet_amount, Some(u64::MAX));
}

#[test]
fn fractional_factor_divides_exactly() {
    // a factor of 3/2 shrinks 1000 to floor(1000 * 2 / 3) = 666
    let mut controller = CongestionController::new(1000, 1000, factor(3, 2));
    controller.prepare(1000);
    controller.reject(1000, &liquidity_reject());
    assert_eq!(controller.max_in_flight, 666);
}

#[test]
fn prepare_consumes_exactly_the_window() {
    let mut controller = CongestionController::new(1000, 1000, factor(2, 1));

    controller.prepare(300);
    assert_eq!(controller.amount_in_flight, 300);
    assert_eq!(controller.get_amount_left_in_window(), 700);

    // booking past the window is allowed; the window only floors at zero
    controller.prepare(900);
    assert_eq!(controller.amount_in_flight, 1200);
    assert_eq!(controller.get_amount_left_in_window(), 0);

    // resolving drops the in-flight component by exactly the resolved amount
    controller.reject(900, &RejectSignal { code: ErrorCode::Other, data: vec![] });
    assert_eq!(controller.amount_in_flight, 300);
    controller.fulfill(300);
    assert_eq!(controller.amount_in_flight, 0);
}

#[test]
fn prepare_zero_is_a_no_op() {
    let mut controller = CongestionController::new(1000, 1000, factor(2, 1));
    controller.prepare(0);
    assert_eq!(controller.amount_in_flight, 0);
    assert_eq!(controller.get_amount_left_in_window(), 1000);
}

#[test]
fn try_fulfill_reports_inconsistent_accounting() {
    let mut controller = CongestionController::new(1000, 1000, factor(2, 1));
    assert_eq!(
        controller.try_fulfill(1),
        Err(AccountingError::InconsistentAccounting)
    );
    assert_eq!(controller.get_amount_left_in_window(), 1000);
    assert_eq!(controller.state, CongestionState::SlowStart);

    controller.prepare(1000);
    assert_eq!(controller.try_fulfill(1000), Ok(()));
    assert_eq!(controller.get_amount_left_in_window(), 2000);
}

#[test]
fn try_reject_reports_inconsistent_accounting() {
    let mut controller = CongestionController::new(1000, 1000, factor(2, 1));
    assert_eq!(
        controller.try_reject(1, &liquidity_reject()),
        Err(AccountingError::InconsistentAccounting)
    );
    assert_eq!(controller.get_amount_left_in_window(), 1000);
    assert_eq!(controller.state, CongestionState::SlowStart);

    controller.prepare(1000);
    assert_eq!(controller.try_reject(1000, &liquidity_reject()), Ok(()));
    assert_eq!(controller.get_amount_left_in_window(), 500);
    assert_eq!(controller.state, CongestionState::AvoidCongestion);
}

#[test]
fn decrease_factor_rejects_zero_parts() {
    assert!(DecreaseFactor::new(0, 1).is_none());
    assert!(DecreaseFactor::new(1, 0).is_none());
    assert!(DecreaseFactor::new(0, 0).is_none());
    assert!(DecreaseFactor::new(2, 1).is_some());
}
