use multi_sender::{
    Address, Amount, Asset, Error, MultiSender, Outcome, Policy, Reason, Reply,
};

fn addr(b: u8) -> Address {
    Address::new([b; 20])
}

fn amt(n: u64) -> Amount {
    Amount::from_u64(n)
}

fn amounts(v: &[u64]) -> Vec<Amount> {
    v.iter().map(|n| amt(*n)).collect()
}

fn as_u128(a: Amount) -> u128 {
    let l = a.limbs();
    assert_eq!(l[2], 0);
    assert_eq!(l[3], 0);
    (l[0] as u128) | ((l[1] as u128) << 64)
}

fn abi_bool(flag: bool) -> Vec<u8> {
    let mut w = vec![0u8; 32];
    if flag {
        w[31] = 1;
    }
    w
}

fn engine() -> MultiSender {
    MultiSender::constructor(addr(1), Policy::Strict).unwrap()
}

#[test]
fn test_multisender() {
    let owner_addr = Address::new([1u8; 20]);
    let contract = MultiSender::constructor(owner_addr, Policy::Strict).unwrap();

    assert_eq!(contract.owner(), owner_addr);
    assert_eq!(contract.total_transactions(), Amount::zero());
    assert_eq!(contract.total_recipients(), Amount::zero());

    let gas_estimate = contract.estimate_batch_eth_gas(amt(5)).unwrap();
    assert!(as_u128(gas_estimate) > 0);

    let token_gas_estimate = contract.estimate_batch_token_gas(amt(3)).unwrap();
    assert!(as_u128(token_gas_estimate) > as_u128(gas_estimate));
}

#[test]
fn lib_test_multisender() {
    let owner_addr = Address::new([1u8; 20]);
    let contract = MultiSender::constructor(owner_addr, Policy::Silent).unwrap();

    assert_eq!(contract.owner(), owner_addr);
    assert_eq!(contract.total_transactions(), Amount::zero());
    assert_eq!(contract.total_recipients(), Amount::zero());

    let gas_estimate = contract.estimate_batch_eth_gas(amt(5)).unwrap();
    assert!(as_u128(gas_estimate) > 0);
}

#[test]
fn gas_estimates_are_exact() {
    let e = engine();
    assert_eq!(as_u128(e.estimate_batch_eth_gas(amt(5)).unwrap()), 21000 + 23000 * 5);
    assert_eq!(as_u128(e.estimate_batch_token_gas(amt(3)).unwrap()), 21000 + 65000 * 3);
    assert_eq!(as_u128(e.estimate_batch_eth_gas(amt(0)).unwrap()), 21000);
}

#[test]
fn native_batch_with_null_recipient() {
    let mut e = engine();
    let sender = addr(9);
    let (a, b, zero) = (addr(0xa), addr(0xb), Address::zero());
    let batch = e
        .batch_send_eth(sender, vec![a, b, zero], amounts(&[10, 20, 30]), amt(70))
        .unwrap();
    assert_eq!(as_u128(batch.total), 60);
    assert!(batch.needs_transfer(0));
    assert!(batch.needs_transfer(1));
    assert!(!batch.needs_transfer(2));
    let replies = vec![Reply::Transferred, Reply::Transferred, Reply::Transferred];
    let r = e.settle(&batch, &replies);
    assert_eq!(
        r.outcomes,
        vec![
            Outcome::Success { recipient: a, amount: amt(10) },
            Outcome::Success { recipient: b, amount: amt(20) },
            Outcome::Failure { recipient: zero, amount: amt(30), reason: Reason::InvalidRecipient },
        ]
    );
    assert_eq!(r.successes, 2);
    assert_eq!(as_u128(r.delivered), 30);
    assert_eq!(as_u128(r.refund), 10);
    assert_eq!(as_u128(r.total), 60);
    assert_eq!(r.asset, Asset::Native);
    assert_eq!(as_u128(e.total_recipients()), 2);
    assert_eq!(as_u128(e.total_transactions()), 1);
    assert_eq!(as_u128(e.user_transaction_count(sender)), 1);
    assert_eq!(as_u128(e.user_transaction_count(a)), 0);
}

#[test]
fn native_failed_transfer_keeps_declared_refund() {
    let mut e = engine();
    let sender = addr(9);
    let batch = e
        .batch_send_eth(sender, vec![addr(2), addr(3)], amounts(&[5, 7]), amt(20))
        .unwrap();
    let r = e.settle(&batch, &vec![Reply::NotTransferred, Reply::Transferred]);
    assert_eq!(
        r.outcomes[0],
        Outcome::Failure { recipient: addr(2), amount: amt(5), reason: Reason::TransferFailed }
    );
    assert_eq!(r.successes, 1);
    assert_eq!(as_u128(r.delivered), 7);
    assert_eq!(as_u128(r.refund), 8);
    assert_eq!(as_u128(e.total_recipients()), 1);
}

#[test]
fn token_batch_classifies_replies() {
    let mut e = engine();
    let sender = addr(9);
    let token = addr(0x77);
    let recipients = vec![addr(2), addr(3), addr(4), addr(5), Address::zero()];
    let batch = e
        .batch_send_token(sender, token, recipients.clone(), amounts(&[1, 2, 3, 4, 5]))
        .unwrap();
    assert_eq!(batch.asset, Asset::Token(token));
    let replies = vec![
        Reply::Returned(abi_bool(true)),
        Reply::Returned(abi_bool(false)),
        Reply::Returned(vec![]),
        Reply::CallFailed,
        Reply::Returned(abi_bool(true)),
    ];
    let r = e.settle(&batch, &replies);
    assert_eq!(r.outcomes[0], Outcome::Success { recipient: addr(2), amount: amt(1) });
    assert_eq!(
        r.outcomes[1],
        Outcome::Failure { recipient: addr(3), amount: amt(2), reason: Reason::NonTrueReturn }
    );
    assert_eq!(
        r.outcomes[2],
        Outcome::Failure { recipient: addr(4), amount: amt(3), reason: Reason::DecodeFailed }
    );
    assert_eq!(
        r.outcomes[3],
        Outcome::Failure { recipient: addr(5), amount: amt(4), reason: Reason::CallFailed }
    );
    assert_eq!(
        r.outcomes[4],
        Outcome::Failure {
            recipient: Address::zero(),
            amount: amt(5),
            reason: Reason::InvalidRecipient
        }
    );
    assert_eq!(r.successes, 1);
    assert_eq!(as_u128(r.delivered), 1);
    assert_eq!(r.refund, Amount::zero());
    assert_eq!(as_u128(r.total), 15);
    assert_eq!(as_u128(e.total_recipients()), 1);
    assert_eq!(as_u128(e.total_transactions()), 1);
}

#[test]
fn validation_errors() {
    let e = engine();
    let s = addr(9);
    assert_eq!(
        e.batch_send_eth(s, vec![addr(2)], amounts(&[1, 2]), amt(10)),
        Err(Error::ArrayLengthMismatch)
    );
    assert_eq!(e.batch_send_eth(s, vec![], vec![], amt(10)), Err(Error::InvalidRecipient));
    assert_eq!(
        e.batch_send_eth(s, vec![addr(2), addr(3)], amounts(&[4, 0]), amt(10)),
        Err(Error::InvalidAmount)
    );
    assert_eq!(
        e.batch_send_eth(s, vec![addr(2), addr(3)], amounts(&[4, 7]), amt(10)),
        Err(Error::InsufficientBalance)
    );
    assert_eq!(
        e.batch_send_eth(s, vec![addr(2), addr(3)], vec![Amount::max_value(), amt(1)], Amount::max_value()),
        Err(Error::ArithmeticOverflow)
    );
    assert_eq!(
        e.batch_send_token(s, addr(5), vec![addr(2)], amounts(&[1, 2])),
        Err(Error::ArrayLengthMismatch)
    );
    assert_eq!(
        e.batch_send_token(s, Address::zero(), vec![addr(2)], amounts(&[1])),
        Err(Error::InvalidRecipient)
    );
    assert_eq!(
        e.batch_send_token(s, addr(5), vec![addr(2)], amounts(&[0])),
        Err(Error::InvalidAmount)
    );
    assert_eq!(as_u128(e.total_transactions()), 0);
}

#[test]
fn zero_amount_rejects_before_overflow() {
    let e = engine();
    assert_eq!(
        e.batch_send_eth(addr(9), vec![addr(2), addr(3), addr(4)], vec![Amount::max_value(), amt(1), amt(0)], amt(1)),
        Err(Error::InvalidAmount)
    );
}

#[test]
fn totals_carry_across_limbs() {
    let e = engine();
    let big = Amount::from_limbs([u64::MAX, 0, 0, 0]);
    let batch = e
        .batch_send_eth(addr(9), vec![addr(2), addr(3)], vec![big, amt(1)], Amount::from_limbs([5, 1, 0, 0]))
        .unwrap();
    assert_eq!(batch.total.limbs(), [0, 1, 0, 0]);
}

#[test]
fn per_sender_counts() {
    let mut e = engine();
    for sender in [addr(7), addr(8), addr(7)] {
        let b = e.batch_send_eth(sender, vec![addr(2)], amounts(&[1]), amt(1)).unwrap();
        e.settle(&b, &vec![Reply::Transferred]);
    }
    assert_eq!(as_u128(e.user_transaction_count(addr(7))), 2);
    assert_eq!(as_u128(e.user_transaction_count(addr(8))), 1);
    assert_eq!(as_u128(e.total_transactions()), 3);
    assert_eq!(as_u128(e.total_recipients()), 3);
}

#[test]
fn emergency_withdraw_gate() {
    let e = engine();
    assert_eq!(e.emergency_withdraw(addr(2), amt(50)), Err(Error::UnauthorizedAccount(addr(2))));
    assert_eq!(e.owner(), addr(1));
    assert_eq!(e.emergency_withdraw(addr(1), amt(50)), Ok(Some((addr(1), amt(50)))));
    assert_eq!(e.emergency_withdraw(addr(1), amt(0)), Ok(None));
}

#[test]
fn ownership_changes() {
    let mut e = engine();
    assert_eq!(e.transfer_ownership(addr(2), addr(3)), Err(Error::UnauthorizedAccount(addr(2))));
    assert_eq!(
        e.transfer_ownership(addr(1), Address::zero()),
        Err(Error::InvalidOwner(Address::zero()))
    );
    assert_eq!(e.owner(), addr(1));
    assert_eq!(e.transfer_ownership(addr(1), addr(3)), Ok(()));
    assert_eq!(e.owner(), addr(3));
    assert_eq!(e.renounce_ownership(addr(1)), Err(Error::UnauthorizedAccount(addr(1))));
    assert_eq!(e.renounce_ownership(addr(3)), Ok(()));
    assert!(e.owner().is_zero());
}

#[test]
fn constructor_and_policy() {
    assert_eq!(
        MultiSender::constructor(Address::zero(), Policy::Strict).err(),
        Some(Error::InvalidOwner(Address::zero()))
    );
    let silent = MultiSender::constructor(Address::zero(), Policy::Silent).unwrap();
    assert_eq!(silent.policy(), Policy::Silent);
    assert_eq!(silent.surface(Err(Error::InvalidAmount)), Ok(()));
    let strict = engine();
    assert_eq!(strict.surface(Err(Error::InvalidAmount)), Err(Error::InvalidAmount));
}

#[test]
fn address_helpers() {
    assert!(Address::zero().is_zero());
    assert!(!addr(1).is_zero());
    assert!(addr(4).same_as(&addr(4)));
    assert!(!addr(4).same_as(&addr(5)));
    assert_eq!(addr(4).to_bytes(), [4u8; 20]);
}

#[test]
fn gas_estimate_overflow_is_none() {
    let e = engine();
    assert_eq!(e.estimate_batch_eth_gas(Amount::max_value()), None);
    assert_eq!(e.estimate_batch_token_gas(Amount::from_limbs([0, 0, 0, 1 << 60])), None);
}
