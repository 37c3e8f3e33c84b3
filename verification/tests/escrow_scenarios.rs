use escrow_core::errors::{ErrorCategory, EscrowError};
use escrow_core::escrow::{EscrowContract, EscrowEventKind, Movement};
use escrow_core::principal::Principal;
use escrow_core::record::{DisputePolicy, EscrowInfo, EscrowStatus, ExpiryPolicy};

fn parties() -> (Principal, Principal, Principal) {
    (
        Principal::new("S"),
        Principal::new("R"),
        Principal::new("T"),
    )
}

fn open_escrow(engine: &mut EscrowContract, now: u64) -> EscrowInfo {
    let (s, r, t) = parties();
    engine
        .create(s.clone(), r, t, 500, 3600, 1800, &s, 500, now)
        .unwrap()
        .info
}

fn disputed_escrow(engine: &mut EscrowContract, created: u64, disputed: u64) -> EscrowInfo {
    let (s, _r, _t) = parties();
    let info = open_escrow(engine, created);
    engine
        .initiate_dispute(&info.id, "FRAUD", &s, 0, disputed)
        .unwrap()
        .info
}

/// The funds that the engine's escrows keep in custody of `token`.
fn held(engine: &EscrowContract, token: &Principal) -> i128 {
    engine
        .get_all_escrows()
        .iter()
        .filter(|e| &e.token == token && !e.status.is_terminal())
        .map(|e| e.amount)
        .sum()
}

#[test]
fn scenario_create_then_release() {
    let (s, r, t) = parties();
    let mut engine = EscrowContract::new();
    let out = engine
        .create(s.clone(), r.clone(), t.clone(), 500, 3600, 1800, &s, 500, 1000)
        .unwrap();
    assert_eq!(out.movement, Some(Movement::DepositFromSender));
    assert_eq!(out.fee_charged, 0);
    assert_eq!(out.event, Some(EscrowEventKind::Created));
    assert_eq!(out.info.id, "escrow_0");
    assert_eq!(out.info.created_at, 1000);
    assert_eq!(out.info.timeout_at, 4600);
    assert_eq!(out.info.status, EscrowStatus::Active);
    assert_eq!(held(&engine, &t), 500);

    let got = engine.get_escrow("escrow_0").unwrap();
    assert_eq!(got, out.info);
    assert_eq!(got.status, EscrowStatus::Active);
    assert!(!got.has_dispute);

    let released = engine.release("escrow_0", &s).unwrap();
    assert_eq!(released.movement, Some(Movement::PayoutToRecipient));
    assert_eq!(released.event, Some(EscrowEventKind::Released));
    assert_eq!(released.info.status, EscrowStatus::Released);
    assert_eq!(released.info.amount, 500);
    assert_eq!(released.info.recipient, r);
    assert_eq!(held(&engine, &t), 0);
    assert_eq!(
        engine.get_escrow("escrow_0").unwrap().status,
        EscrowStatus::Released
    );
}

#[test]
fn scenario_dispute_only_once() {
    let (s, _r, _t) = parties();
    let mut engine = EscrowContract::new();
    let info = open_escrow(&mut engine, 1000);
    let out = engine
        .initiate_dispute(&info.id, "FRAUD", &s, 0, 1200)
        .unwrap();
    assert_eq!(out.info.status, EscrowStatus::Disputed);
    assert!(out.info.has_dispute);
    assert_eq!(out.movement, None);
    assert_eq!(out.event, Some(EscrowEventKind::DisputeInitiated));
    let dispute = engine.get_dispute_info(&info.id).unwrap().unwrap();
    assert_eq!(dispute.initiated_at, 1200);
    assert_eq!(dispute.initiated_by, s);

    assert_eq!(
        engine.initiate_dispute(&info.id, "FRAUD", &s, 0, 1300),
        Err(EscrowError::DisputeAlreadyInitiated)
    );

    engine
        .resolve_dispute_for_sender(&info.id, &s, 1400)
        .unwrap();
    assert_eq!(
        engine.initiate_dispute(&info.id, "AGAIN", &s, 0, 1500),
        Err(EscrowError::DisputeAlreadyInitiated)
    );
    assert!(engine.get_escrow(&info.id).unwrap().has_dispute);
    assert_eq!(
        engine.get_dispute_info(&info.id).unwrap().unwrap().reason,
        "FRAUD"
    );
}

#[test]
fn scenario_timeout_boundary() {
    let (_s, r, t) = parties();
    let stranger = Principal::new("X");
    let mut engine = EscrowContract::new();
    let info = open_escrow(&mut engine, 1000);
    assert_eq!(
        engine.check_timeout(&info.id, 4599),
        Err(EscrowError::NotTimedOut)
    );
    assert_eq!(
        engine.get_escrow(&info.id).unwrap().status,
        EscrowStatus::Active
    );
    assert_eq!(held(&engine, &t), 500);
    let out = engine.check_timeout(&info.id, 4600).unwrap();
    assert_eq!(out.info.status, EscrowStatus::AutoReleased);
    assert_eq!(out.movement, Some(Movement::PayoutToRecipient));
    assert_eq!(out.info.recipient, r);
    assert_eq!(out.event, None);
    assert_eq!(held(&engine, &t), 0);
    assert_eq!(
        engine.check_timeout(&info.id, 5000),
        Err(EscrowError::NotActive)
    );
    assert_eq!(
        engine.release(&info.id, &stranger),
        Err(EscrowError::NotActive)
    );
}

#[test]
fn settled_escrows_refuse_every_operation() {
    let (s, _r, _t) = parties();
    let admin = Principal::new("ADMIN");
    let mut engine = EscrowContract::new();
    engine.initialize(admin.clone(), &admin).unwrap();

    let released = open_escrow(&mut engine, 0);
    engine.release(&released.id, &s).unwrap();
    let refunded = open_escrow(&mut engine, 0);
    engine.refund(&refunded.id, &s).unwrap();
    let timed_out = open_escrow(&mut engine, 0);
    engine.check_timeout(&timed_out.id, 3600).unwrap();
    let for_recipient = disputed_escrow(&mut engine, 0, 10);
    engine
        .resolve_dispute_for_recipient(&for_recipient.id, &s, 20)
        .unwrap();
    let for_sender = disputed_escrow(&mut engine, 0, 10);
    engine
        .resolve_dispute_for_sender(&for_sender.id, &s, 20)
        .unwrap();

    let before = engine.get_all_escrows();
    for info in before.iter() {
        let id = info.id.as_str();
        assert!(info.status.is_terminal());
        assert_eq!(engine.release(id, &s), Err(EscrowError::NotActive));
        assert_eq!(engine.refund(id, &s), Err(EscrowError::NotActive));
        assert_eq!(
            engine.check_timeout(id, u64::MAX),
            Err(EscrowError::NotActive)
        );
        assert!(engine.initiate_dispute(id, "LATE", &s, 0, 30).is_err());
        assert_eq!(
            engine.resolve_dispute_for_recipient(id, &s, 30),
            Err(EscrowError::NotDisputed)
        );
        assert_eq!(
            engine.resolve_dispute_for_sender(id, &s, 30),
            Err(EscrowError::NotDisputed)
        );
        assert_eq!(
            engine.check_dispute_timeout(id, u64::MAX),
            Err(EscrowError::NotDisputed)
        );
        assert_eq!(
            engine.admin_resolve_dispute(id, true, &admin),
            Err(EscrowError::NotDisputed)
        );
        assert_eq!(
            engine.update_dispute_period(id, 100, &s),
            Err(EscrowError::NotActive)
        );
        assert_eq!(engine.can_dispute(id), Ok(false));
    }
    assert_eq!(engine.get_all_escrows(), before);
    let statuses: Vec<EscrowStatus> = before.iter().map(|e| e.status).collect();
    assert_eq!(
        statuses,
        vec![
            EscrowStatus::Released,
            EscrowStatus::Refunded,
            EscrowStatus::AutoReleased,
            EscrowStatus::DisputeResolvedForRecipient,
            EscrowStatus::DisputeResolvedForSender,
        ]
    );
}

#[test]
fn custody_is_the_sum_of_open_escrows() {
    let (s, r, t) = parties();
    let other_token = Principal::new("T2");
    let mut engine = EscrowContract::new();
    let a = engine
        .create(s.clone(), r.clone(), t.clone(), 500, 3600, 1800, &s, 10_000, 0)
        .unwrap()
        .info;
    let b = engine
        .create(s.clone(), r.clone(), t.clone(), 70, 3600, 1800, &s, 9_500, 0)
        .unwrap()
        .info;
    let c = engine
        .create(s.clone(), r.clone(), other_token.clone(), 9, 3600, 1800, &s, 9, 0)
        .unwrap()
        .info;
    assert_eq!(held(&engine, &t), 570);
    assert_eq!(held(&engine, &other_token), 9);

    engine.initiate_dispute(&b.id, "FRAUD", &s, 0, 5).unwrap();
    assert_eq!(held(&engine, &t), 570);

    let out = engine.refund(&a.id, &s).unwrap();
    assert_eq!(out.info.amount, 500);
    assert_eq!(held(&engine, &t), 70);

    let out = engine.check_dispute_timeout(&b.id, 1805).unwrap();
    assert_eq!(out.info.amount, 70);
    assert_eq!(out.movement, Some(Movement::PayoutToRecipient));
    assert_eq!(held(&engine, &t), 0);
    assert_eq!(held(&engine, &other_token), 9);

    engine.check_timeout(&c.id, 3600).unwrap();
    assert_eq!(held(&engine, &other_token), 0);
}

#[test]
fn escrow_names_count_up_in_decimal() {
    let mut engine = EscrowContract::new();
    for i in 0..12u32 {
        let info = open_escrow(&mut engine, 0);
        assert_eq!(info.id, format!("escrow_{}", i));
    }
    assert_eq!(engine.get_escrow_count(), 12);
    assert!(engine.escrow_exists("escrow_0"));
    assert!(engine.escrow_exists("escrow_9"));
    assert!(engine.escrow_exists("escrow_10"));
    assert!(engine.escrow_exists("escrow_11"));
    assert!(!engine.escrow_exists("escrow_12"));
    assert!(!engine.escrow_exists("escrow_01"));
    assert!(!engine.escrow_exists("escrow_"));
    assert!(!engine.escrow_exists("0"));
    assert_eq!(engine.get_escrow("escrow_10").unwrap().id, "escrow_10");
}

#[test]
fn the_engine_names_a_hundred_thousand_escrows() {
    let (s, r, t) = parties();
    let mut engine = EscrowContract::new();
    let mut last = String::new();
    for _ in 0..100_000u32 {
        last = engine
            .create(s.clone(), r.clone(), t.clone(), 1, 1, 1, &s, 1, 0)
            .unwrap()
            .info
            .id;
    }
    assert_eq!(last, "escrow_99999");
    assert_eq!(engine.get_escrow_count(), 100_000);
    assert_eq!(
        engine.create(s.clone(), r, t, 1, 1, 1, &s, 1, 0),
        Err(EscrowError::CapacityExhausted)
    );
    assert_eq!(engine.get_escrow_count(), 100_000);
}

#[test]
fn create_checks_in_order() {
    let (s, r, t) = parties();
    let x = Principal::new("X");
    let admin = Principal::new("ADMIN");
    let mut e = EscrowContract::new();
    let c = |e: &mut EscrowContract,
             recipient: &Principal,
             amount: i128,
             timeout: u64,
             period: u64,
             caller: &Principal,
             balance: i128,
             now: u64| {
        e.create(
            Principal::new("S"),
            recipient.clone(),
            Principal::new("T"),
            amount,
            timeout,
            period,
            caller,
            balance,
            now,
        )
        .map(|o| o.info.id)
    };
    assert_eq!(c(&mut e, &s, -1, 0, 0, &x, 0, 0), Err(EscrowError::InvalidAmount));
    assert_eq!(c(&mut e, &s, 1, 0, 0, &x, 0, 0), Err(EscrowError::ZeroTimeout));
    assert_eq!(c(&mut e, &s, 1, 5, 0, &x, 0, 0), Err(EscrowError::ZeroDisputePeriod));
    assert_eq!(
        c(&mut e, &s, 1, 5, 6, &x, 0, 0),
        Err(EscrowError::DisputePeriodExceedsTimeout)
    );
    assert_eq!(c(&mut e, &s, 1, 5, 5, &x, 0, 0), Err(EscrowError::SameParty));
    assert_eq!(c(&mut e, &r, 1, 5, 5, &x, 0, 0), Err(EscrowError::Unauthorized));
    assert_eq!(c(&mut e, &r, 1, 5, 5, &r, 9, 0), Err(EscrowError::Unauthorized));
    assert_eq!(
        c(&mut e, &r, 10, 5, 5, &s, 9, 0),
        Err(EscrowError::InsufficientBalance)
    );
    assert_eq!(
        c(&mut e, &r, 10, 5, 5, &s, 10, u64::MAX - 4),
        Err(EscrowError::TimeoutOverflow)
    );
    assert_eq!(e.get_escrow_count(), 0);
    assert_eq!(
        c(&mut e, &r, 10, 5, 5, &s, 10, u64::MAX - 5),
        Ok("escrow_0".to_string())
    );
    assert_eq!(e.get_escrow("escrow_0").unwrap().timeout_at, u64::MAX);
    assert_eq!(e.get_escrow("escrow_0").unwrap().token, t);

    e.initialize(admin.clone(), &admin).unwrap();
    e.set_paused(true, &admin).unwrap();
    assert_eq!(c(&mut e, &s, -1, 0, 0, &x, 0, 0), Err(EscrowError::ContractPaused));
}

#[test]
fn unknown_ids_are_not_found() {
    let (s, _r, _t) = parties();
    let admin = Principal::new("ADMIN");
    let mut e = EscrowContract::new();
    open_escrow(&mut e, 0);
    let id = "escrow_7";
    assert_eq!(e.release(id, &s), Err(EscrowError::NotFound));
    assert_eq!(e.refund(id, &s), Err(EscrowError::NotFound));
    assert_eq!(e.check_timeout(id, 0), Err(EscrowError::NotFound));
    assert_eq!(e.initiate_dispute(id, "X", &s, 0, 0), Err(EscrowError::NotFound));
    assert_eq!(
        e.resolve_dispute_for_recipient(id, &s, 0),
        Err(EscrowError::NotFound)
    );
    assert_eq!(
        e.resolve_dispute_for_sender(id, &s, 0),
        Err(EscrowError::NotFound)
    );
    assert_eq!(e.check_dispute_timeout(id, 0), Err(EscrowError::NotFound));
    assert_eq!(e.update_dispute_period(id, 5, &s), Err(EscrowError::NotFound));
    assert_eq!(e.get_escrow(id), Err(EscrowError::NotFound));
    assert_eq!(e.get_dispute_info(id), Err(EscrowError::NotFound));
    assert_eq!(e.can_dispute(id), Err(EscrowError::NotFound));
    assert!(!e.escrow_exists(id));
    assert_eq!(
        e.admin_resolve_dispute(id, true, &admin),
        Err(EscrowError::NotInitialized)
    );
    e.initialize(admin.clone(), &admin).unwrap();
    assert_eq!(
        e.admin_resolve_dispute(id, true, &admin),
        Err(EscrowError::NotFound)
    );
    assert_eq!(e.get_dispute_info("escrow_0"), Ok(None));
}

#[test]
fn only_the_sender_settles_an_active_escrow() {
    let (s, r, _t) = parties();
    let mut e = EscrowContract::new();
    let info = open_escrow(&mut e, 0);
    assert_eq!(e.release(&info.id, &r), Err(EscrowError::Unauthorized));
    assert_eq!(e.refund(&info.id, &r), Err(EscrowError::Unauthorized));
    assert_eq!(
        e.initiate_dispute(&info.id, "X", &r, 0, 0),
        Err(EscrowError::Unauthorized)
    );
    assert_eq!(
        e.update_dispute_period(&info.id, 5, &r),
        Err(EscrowError::Unauthorized)
    );
    assert_eq!(e.get_escrow(&info.id).unwrap(), info);
    assert!(e.refund(&info.id, &s).is_ok());
}

#[test]
fn dispute_window_decides_who_may_resolve() {
    let (s, r, _t) = parties();
    let stranger = Principal::new("X");
    let mut e = EscrowContract::new();
    let info = disputed_escrow(&mut e, 1000, 2000);

    assert_eq!(
        e.resolve_dispute_for_recipient(&info.id, &r, 3799),
        Err(EscrowError::Unauthorized)
    );
    assert_eq!(
        e.resolve_dispute_for_sender(&info.id, &stranger, 3799),
        Err(EscrowError::Unauthorized)
    );
    assert_eq!(
        e.check_dispute_timeout(&info.id, 3799),
        Err(EscrowError::DisputePeriodNotExpired)
    );
    assert_eq!(
        e.get_escrow(&info.id).unwrap().status,
        EscrowStatus::Disputed
    );
    let out = e
        .resolve_dispute_for_sender(&info.id, &stranger, 3800)
        .unwrap();
    assert_eq!(out.info.status, EscrowStatus::DisputeResolvedForSender);
    assert_eq!(out.movement, Some(Movement::PayoutToSender));
    assert_eq!(out.event, Some(EscrowEventKind::DisputeResolvedForSender));
    assert!(out.info.has_dispute);

    let second = disputed_escrow(&mut e, 1000, 2000);
    let out = e.check_dispute_timeout(&second.id, 3800).unwrap();
    assert_eq!(out.info.status, EscrowStatus::DisputeResolvedForRecipient);
    assert_eq!(out.event, Some(EscrowEventKind::DisputeResolvedForRecipient));

    let third = disputed_escrow(&mut e, 1000, 2000);
    let out = e.resolve_dispute_for_recipient(&third.id, &s, 2000).unwrap();
    assert_eq!(out.info.status, EscrowStatus::DisputeResolvedForRecipient);
    assert_eq!(out.movement, Some(Movement::PayoutToRecipient));

    let active = open_escrow(&mut e, 0);
    assert_eq!(
        e.check_dispute_timeout(&active.id, 0),
        Err(EscrowError::NotDisputed)
    );
    assert_eq!(
        e.resolve_dispute_for_sender(&active.id, &s, 0),
        Err(EscrowError::NotDisputed)
    );
}

#[test]
fn dispute_fee_is_charged_to_the_sender() {
    let (s, _r, _t) = parties();
    let admin = Principal::new("ADMIN");
    let mut e = EscrowContract::new();
    e.initialize(admin.clone(), &admin).unwrap();
    e.set_dispute_fee(100, &admin).unwrap();
    let info = open_escrow(&mut e, 0);
    assert_eq!(
        e.initiate_dispute(&info.id, "FRAUD", &s, 99, 0),
        Err(EscrowError::InsufficientBalanceForFee)
    );
    assert!(e.can_dispute(&info.id).unwrap());
    let out = e.initiate_dispute(&info.id, "FRAUD", &s, 100, 0).unwrap();
    assert_eq!(out.fee_charged, 100);
    assert_eq!(out.movement, None);

    e.set_paused(true, &admin).unwrap();
    let other = e.get_escrow(&info.id).unwrap();
    assert_eq!(
        e.initiate_dispute(&other.id, "FRAUD", &s, 100, 0),
        Err(EscrowError::ContractPaused)
    );
    let out = e.resolve_dispute_for_sender(&info.id, &s, 0).unwrap();
    assert_eq!(out.info.status, EscrowStatus::DisputeResolvedForSender);
}

#[test]
fn paused_engine_still_settles() {
    let (s, _r, _t) = parties();
    let admin = Principal::new("ADMIN");
    let mut e = EscrowContract::new();
    e.initialize(admin.clone(), &admin).unwrap();
    let a = open_escrow(&mut e, 0);
    let b = open_escrow(&mut e, 0);
    let c = open_escrow(&mut e, 0);
    e.set_paused(true, &admin).unwrap();
    assert!(e.release(&a.id, &s).is_ok());
    assert!(e.refund(&b.id, &s).is_ok());
    assert!(e.check_timeout(&c.id, 3600).is_ok());
}

#[test]
fn admin_gate() {
    let admin = Principal::new("ADMIN");
    let next = Principal::new("NEXT");
    let mut e = EscrowContract::new();
    assert_eq!(e.get_admin(), None);
    assert_eq!(e.set_dispute_fee(5, &admin), Err(EscrowError::NotInitialized));
    assert_eq!(e.set_paused(true, &admin), Err(EscrowError::NotInitialized));
    assert_eq!(
        e.transfer_admin(next.clone(), &admin),
        Err(EscrowError::NotInitialized)
    );
    assert_eq!(
        e.initialize(admin.clone(), &next),
        Err(EscrowError::Unauthorized)
    );
    assert_eq!(e.initialize(admin.clone(), &admin), Ok(()));
    assert_eq!(
        e.initialize(next.clone(), &next),
        Err(EscrowError::AlreadyInitialized)
    );
    assert_eq!(e.set_dispute_fee(5, &next), Err(EscrowError::Unauthorized));
    assert_eq!(e.set_dispute_fee(-1, &admin), Err(EscrowError::NegativeFee));
    assert_eq!(e.set_dispute_fee(0, &admin), Ok(()));
    assert_eq!(e.set_paused(true, &next), Err(EscrowError::Unauthorized));
    assert_eq!(e.transfer_admin(next.clone(), &next), Err(EscrowError::Unauthorized));
    assert_eq!(e.transfer_admin(next.clone(), &admin), Ok(()));
    assert_eq!(e.get_admin(), Some(next.clone()));
    assert_eq!(e.set_paused(true, &admin), Err(EscrowError::Unauthorized));
    assert_eq!(e.set_paused(true, &next), Ok(()));
    assert!(e.is_paused());
}

#[test]
fn admin_resolves_at_any_time() {
    let (s, _r, _t) = parties();
    let admin = Principal::new("ADMIN");
    let mut e = EscrowContract::new();
    e.initialize(admin.clone(), &admin).unwrap();
    let a = disputed_escrow(&mut e, 0, 10);
    let b = disputed_escrow(&mut e, 0, 10);
    let active = open_escrow(&mut e, 0);
    assert_eq!(
        e.admin_resolve_dispute(&a.id, true, &s),
        Err(EscrowError::Unauthorized)
    );
    assert_eq!(
        e.admin_resolve_dispute(&active.id, true, &admin),
        Err(EscrowError::NotDisputed)
    );
    let out = e.admin_resolve_dispute(&a.id, true, &admin).unwrap();
    assert_eq!(out.info.status, EscrowStatus::DisputeResolvedForRecipient);
    assert_eq!(out.movement, Some(Movement::PayoutToRecipient));
    assert_eq!(out.event, Some(EscrowEventKind::DisputeResolvedForRecipient));
    let out = e.admin_resolve_dispute(&b.id, false, &admin).unwrap();
    assert_eq!(out.info.status, EscrowStatus::DisputeResolvedForSender);
    assert_eq!(out.movement, Some(Movement::PayoutToSender));
    assert_eq!(out.event, Some(EscrowEventKind::DisputeResolvedForSender));
}

#[test]
fn dispute_period_can_change_while_active() {
    let (s, _r, _t) = parties();
    let mut e = EscrowContract::new();
    let info = open_escrow(&mut e, 0);
    assert_eq!(
        e.update_dispute_period(&info.id, 0, &s),
        Err(EscrowError::ZeroDisputePeriod)
    );
    assert_eq!(
        e.update_dispute_period(&info.id, 3601, &s),
        Err(EscrowError::DisputePeriodExceedsTimeout)
    );
    let out = e.update_dispute_period(&info.id, 3600, &s).unwrap();
    assert_eq!(out.info.dispute_period, 3600);
    assert_eq!(out.info.status, EscrowStatus::Active);
    assert_eq!(out.movement, None);
    assert_eq!(out.event, None);
    assert_eq!(e.get_escrow(&info.id).unwrap().dispute_period, 3600);

    e.initiate_dispute(&info.id, "FRAUD", &s, 0, 5).unwrap();
    assert_eq!(
        e.get_dispute_info(&info.id).unwrap().unwrap().dispute_period,
        3600
    );
    assert_eq!(
        e.update_dispute_period(&info.id, 10, &s),
        Err(EscrowError::NotActive)
    );
}

#[test]
fn queries_keep_the_order_of_creation() {
    let (s, r, t) = parties();
    let x = Principal::new("X");
    let mut e = EscrowContract::new();
    let a = open_escrow(&mut e, 0);
    let b = e
        .create(x.clone(), s.clone(), t.clone(), 5, 10, 10, &x, 5, 0)
        .unwrap()
        .info;
    let c = e
        .create(x.clone(), r.clone(), t.clone(), 6, 10, 10, &x, 6, 0)
        .unwrap()
        .info;
    e.release(&b.id, &x).unwrap();
    let ids = |v: Vec<EscrowInfo>| v.into_iter().map(|i| i.id).collect::<Vec<String>>();
    assert_eq!(ids(e.get_all_escrows()), vec!["escrow_0", "escrow_1", "escrow_2"]);
    assert_eq!(
        ids(e.get_escrows_by_status(EscrowStatus::Active)),
        vec!["escrow_0", "escrow_2"]
    );
    assert_eq!(
        ids(e.get_escrows_by_status(EscrowStatus::Released)),
        vec!["escrow_1"]
    );
    assert_eq!(
        ids(e.get_escrows_by_participant(&s)),
        vec!["escrow_0", "escrow_1"]
    );
    assert_eq!(
        ids(e.get_escrows_by_participant(&r)),
        vec!["escrow_0", "escrow_2"]
    );
    assert_eq!(
        ids(e.get_escrows_by_participant(&x)),
        vec!["escrow_1", "escrow_2"]
    );
    assert!(e.get_escrows_by_participant(&t).is_empty());
    assert_eq!(a.id, "escrow_0");
    assert_eq!(c.id, "escrow_2");
}

#[test]
fn every_error_has_its_message() {
    assert_eq!(EscrowError::NotActive.message(), "Escrow is not active");
    assert_eq!(EscrowError::NotDisputed.message(), "Escrow is not disputed");
    assert_eq!(
        EscrowError::NotTimedOut.message(),
        "Escrow has not timed out yet"
    );
    assert_eq!(
        EscrowError::DisputePeriodNotExpired.message(),
        "Dispute period has not expired yet"
    );
    assert_eq!(
        EscrowError::InsufficientBalance.message(),
        "Insufficient token balance"
    );
    assert_eq!(
        EscrowError::InsufficientBalanceForFee.message(),
        "Insufficient balance for dispute fee"
    );
    assert_eq!(
        EscrowError::AlreadyInitialized.message(),
        "Contract already initialized"
    );
    assert_eq!(
        EscrowError::NegativeFee.message(),
        "Dispute fee cannot be negative"
    );
    assert_eq!(
        EscrowError::ZeroTimeout.message(),
        "Timeout duration must be non-zero"
    );
    assert_eq!(
        EscrowError::ZeroDisputePeriod.message(),
        "Dispute period must be non-zero"
    );
}

#[test]
fn either_party_may_dispute_where_the_policy_says_so() {
    let (s, r, _t) = parties();
    let stranger = Principal::new("X");

    let mut strict = EscrowContract::new();
    assert_eq!(strict.dispute_policy, DisputePolicy::SenderOnly);
    assert_eq!(strict.expiry_policy, ExpiryPolicy::FavorRecipient);
    let info = open_escrow(&mut strict, 0);
    assert_eq!(
        strict.initiate_dispute(&info.id, "LATE", &r, 0, 5),
        Err(EscrowError::Unauthorized)
    );

    let mut open = EscrowContract::with_policies(DisputePolicy::EitherParty, ExpiryPolicy::FavorSender);
    let info = open_escrow(&mut open, 0);
    assert_eq!(
        open.initiate_dispute(&info.id, "LATE", &stranger, 0, 5),
        Err(EscrowError::Unauthorized)
    );
    let out = open.initiate_dispute(&info.id, "LATE", &r, 0, 5).unwrap();
    assert_eq!(out.info.status, EscrowStatus::Disputed);
    let dispute = open.get_dispute_info(&info.id).unwrap().unwrap();
    assert_eq!(dispute.initiated_by, r);
    assert_eq!(dispute.initiated_at, 5);
    assert_eq!(
        open.initiate_dispute(&info.id, "AGAIN", &s, 0, 6),
        Err(EscrowError::DisputeAlreadyInitiated)
    );
    assert_eq!(
        open.resolve_dispute_for_recipient(&info.id, &r, 6),
        Err(EscrowError::Unauthorized)
    );
    let out = open.check_dispute_timeout(&info.id, 1805).unwrap();
    assert_eq!(out.info.status, EscrowStatus::DisputeResolvedForSender);
    assert_eq!(out.movement, Some(Movement::PayoutToSender));
    assert_eq!(out.event, Some(EscrowEventKind::DisputeResolvedForSender));
}

#[test]
fn restored_state_is_tested() {
    let (s, _r, _t) = parties();
    let mut e = EscrowContract::new();
    assert!(e.is_well_formed());
    let a = open_escrow(&mut e, 0);
    disputed_escrow(&mut e, 0, 5);
    e.release(&a.id, &s).unwrap();
    assert!(e.is_well_formed());

    e.dispute_fee = -1;
    assert!(!e.is_well_formed());
    e.dispute_fee = 0;
    assert!(e.is_well_formed());

    e.escrows[0].id = "escrow_1".to_string();
    assert!(!e.is_well_formed());
    e.escrows[0].id = "escrow_0".to_string();
    assert!(e.is_well_formed());

    e.escrows[0].amount = 0;
    assert!(!e.is_well_formed());
    e.escrows[0].amount = 500;

    e.escrows[0].status = EscrowStatus::Disputed;
    assert!(!e.is_well_formed());
    e.escrows[0].status = EscrowStatus::Released;

    e.escrows[1].status = EscrowStatus::Active;
    assert!(!e.is_well_formed());
    e.escrows[1].status = EscrowStatus::DisputeResolvedForSender;
    assert!(e.is_well_formed());

    e.escrows[1].dispute_period = 1;
    assert!(!e.is_well_formed());
    e.escrows[1].dispute_period = 1800;
    e.escrows[1].created_at = u64::MAX;
    assert!(!e.is_well_formed());
    e.escrows[1].created_at = 0;
    e.escrows[1].recipient = Principal::new("S");
    assert!(!e.is_well_formed());
}

#[test]
fn errors_fall_into_five_categories() {
    assert_eq!(EscrowError::InvalidAmount.category(), ErrorCategory::Validation);
    assert_eq!(EscrowError::ZeroTimeout.category(), ErrorCategory::Validation);
    assert_eq!(EscrowError::ZeroDisputePeriod.category(), ErrorCategory::Validation);
    assert_eq!(
        EscrowError::DisputePeriodExceedsTimeout.category(),
        ErrorCategory::Validation
    );
    assert_eq!(EscrowError::SameParty.category(), ErrorCategory::Validation);
    assert_eq!(EscrowError::TimeoutOverflow.category(), ErrorCategory::Validation);
    assert_eq!(EscrowError::NegativeFee.category(), ErrorCategory::Validation);
    assert_eq!(EscrowError::Unauthorized.category(), ErrorCategory::Authorization);
    assert_eq!(EscrowError::InsufficientBalance.category(), ErrorCategory::Resource);
    assert_eq!(
        EscrowError::InsufficientBalanceForFee.category(),
        ErrorCategory::Resource
    );
    assert_eq!(EscrowError::CapacityExhausted.category(), ErrorCategory::Resource);
    assert_eq!(EscrowError::NotFound.category(), ErrorCategory::NotFound);
    assert_eq!(EscrowError::ContractPaused.category(), ErrorCategory::State);
    assert_eq!(EscrowError::NotActive.category(), ErrorCategory::State);
    assert_eq!(EscrowError::NotDisputed.category(), ErrorCategory::State);
    assert_eq!(
        EscrowError::DisputeAlreadyInitiated.category(),
        ErrorCategory::State
    );
    assert_eq!(EscrowError::NotTimedOut.category(), ErrorCategory::State);
    assert_eq!(
        EscrowError::DisputePeriodNotExpired.category(),
        ErrorCategory::State
    );
    assert_eq!(EscrowError::AlreadyInitialized.category(), ErrorCategory::State);
    assert_eq!(EscrowError::NotInitialized.category(), ErrorCategory::State);
}
