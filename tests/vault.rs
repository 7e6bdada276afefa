use autotp::{
    apply_payouts, cancel_tp, execute_tp, fee_split, initialize, CancelTP, CustomError,
    Destination, ExecuteTP, Initialize, Payout, Pubkey, Registry, Vault,
};

fn key(b: u8) -> Pubkey {
    Pubkey::new_from_array([b; 32])
}

fn vault(target_price: u64, referrer: Pubkey) -> Vault {
    let ctx = Initialize { owner: key(1), token_mint: key(2) };
    initialize(&ctx, target_price, referrer)
}

fn pay(to: Destination, amount: u64) -> Payout {
    Payout { to, amount }
}

#[test]
fn initialize_sets_fields() {
    let v = vault(100, key(3));
    assert_eq!(v.owner.to_bytes(), [1u8; 32]);
    assert_eq!(v.token_mint.to_bytes(), [2u8; 32]);
    assert_eq!(v.target_price, 100);
    assert_eq!(v.referrer.to_bytes(), [3u8; 32]);
    assert_eq!(v.current_price, 0);
    assert!(!v.ready_for_execution);
}

#[test]
fn execute_with_referrer_splits_three_ways() {
    let mut ctx = ExecuteTP { vault: vault(100, key(3)), vault_tokens: 10_000 };
    let split = fee_split(10_000);
    assert_eq!(split.protocol_fee, 100);
    assert_eq!(split.referrer_fee, 10);
    assert_eq!(split.protocol_share, 90);
    assert_eq!(split.user_amount, 9_900);
    let plan = execute_tp(&mut ctx, 100).unwrap();
    assert_eq!(
        plan,
        vec![
            pay(Destination::Referrer, 10),
            pay(Destination::Protocol, 90),
            pay(Destination::User, 9_900)
        ]
    );
    assert_eq!(apply_payouts(10_000, &plan), Ok(0));
    assert!(!ctx.vault.ready_for_execution);
}

#[test]
fn small_balance_without_referrer_goes_to_user() {
    let split = fee_split(99);
    assert_eq!(split.protocol_fee, 0);
    assert_eq!(split.referrer_fee, 0);
    assert_eq!(split.protocol_share, 0);
    assert_eq!(split.user_amount, 99);
    let mut ctx = ExecuteTP { vault: vault(100, Pubkey::default()), vault_tokens: 99 };
    let plan = execute_tp(&mut ctx, 100).unwrap();
    assert_eq!(plan, vec![pay(Destination::Protocol, 0), pay(Destination::User, 99)]);
    assert_eq!(apply_payouts(99, &plan), Ok(0));
}

#[test]
fn split_conserves_every_balance() {
    for total in [0u64, 1, 99, 100, 999, 1_000, 12_345, 10_000, u64::MAX] {
        let s = fee_split(total);
        assert_eq!(s.referrer_fee + s.protocol_share + s.user_amount, total);
        assert_eq!(s.protocol_fee, total / 100);
    }
    let s = fee_split(u64::MAX);
    assert_eq!(s.protocol_fee, 184_467_440_737_095_516);
    assert_eq!(s.referrer_fee, 18_446_744_073_709_551);
    assert_eq!(s.protocol_share, 166_020_696_663_385_965);
    assert_eq!(s.user_amount, 18_262_276_632_972_456_099);
}

#[test]
fn cancel_by_stranger_is_unauthorized() {
    let ctx = CancelTP { vault: vault(100, key(3)), vault_tokens: 500, owner: key(9) };
    assert_eq!(cancel_tp(&ctx), Err(CustomError::Unauthorized));
}

#[test]
fn cancel_by_owner_returns_whole_balance() {
    let ctx = CancelTP { vault: vault(100, key(3)), vault_tokens: 500, owner: key(1) };
    let plan = cancel_tp(&ctx).unwrap();
    assert_eq!(plan, vec![pay(Destination::Owner, 500)]);
    assert_eq!(apply_payouts(500, &plan), Ok(0));
}

#[test]
fn cancel_on_empty_account_moves_nothing() {
    let ctx = CancelTP { vault: vault(100, key(3)), vault_tokens: 0, owner: key(1) };
    let plan = cancel_tp(&ctx).unwrap();
    assert_eq!(plan, vec![pay(Destination::Owner, 0)]);
    assert_eq!(apply_payouts(0, &plan), Ok(0));
    assert_eq!(cancel_tp(&ctx).unwrap(), plan);
}

#[test]
fn execute_below_target_is_rejected() {
    let mut ctx = ExecuteTP { vault: vault(100, key(3)), vault_tokens: 10_000 };
    ctx.vault.ready_for_execution = true;
    assert_eq!(execute_tp(&mut ctx, 99), Err(CustomError::TargetNotReached));
    assert!(ctx.vault.ready_for_execution);
    assert_eq!(ctx.vault_tokens, 10_000);
}

#[test]
fn execute_at_target_succeeds() {
    let mut ctx = ExecuteTP { vault: vault(100, key(3)), vault_tokens: 1 };
    ctx.vault.ready_for_execution = true;
    assert_eq!(
        execute_tp(&mut ctx, 100),
        Ok(vec![
            pay(Destination::Referrer, 0),
            pay(Destination::Protocol, 0),
            pay(Destination::User, 1)
        ])
    );
    assert!(!ctx.vault.ready_for_execution);
}

#[test]
fn execute_falls_back_to_stored_price() {
    let mut ctx = ExecuteTP { vault: vault(100, key(3)), vault_tokens: 1_000 };
    assert_eq!(execute_tp(&mut ctx, 0), Err(CustomError::TargetNotReached));
    ctx.vault.current_price = 150;
    let plan = execute_tp(&mut ctx, 0).unwrap();
    assert_eq!(plan.len(), 3);
    ctx.vault.current_price = 500;
    assert_eq!(execute_tp(&mut ctx, 50), Err(CustomError::TargetNotReached));
}

#[test]
fn no_referrer_means_no_referrer_transfer() {
    let mut ctx = ExecuteTP { vault: vault(10, Pubkey::default()), vault_tokens: 500 };
    let plan = execute_tp(&mut ctx, 10).unwrap();
    assert_eq!(plan, vec![pay(Destination::Protocol, 5), pay(Destination::User, 495)]);
    let s = fee_split(500);
    assert_eq!(s.protocol_share, s.protocol_fee);
}

#[test]
fn no_referrer_leaves_referrer_cut_unpaid() {
    let mut ctx = ExecuteTP { vault: vault(10, Pubkey::default()), vault_tokens: 10_000 };
    let plan = execute_tp(&mut ctx, 10).unwrap();
    assert_eq!(plan, vec![pay(Destination::Protocol, 90), pay(Destination::User, 9_900)]);
    assert_eq!(apply_payouts(10_000, &plan), Ok(10));
}

#[test]
fn payouts_beyond_balance_are_refused_whole() {
    let plan = vec![pay(Destination::Protocol, 90), pay(Destination::User, 9_900)];
    assert_eq!(apply_payouts(9_989, &plan), Err(CustomError::InsufficientFunds));
    assert_eq!(apply_payouts(9_990, &plan), Ok(0));
    let big = vec![pay(Destination::User, u64::MAX), pay(Destination::User, 1)];
    assert_eq!(apply_payouts(u64::MAX, &big), Err(CustomError::InsufficientFunds));
    assert_eq!(apply_payouts(7, &vec![]), Ok(7));
}

#[test]
fn seeds_are_tag_and_owner() {
    let v = vault(1, key(3));
    assert_eq!(v.seeds(), vec![b"vault".to_vec(), vec![1u8; 32]]);
}

#[test]
fn keys_compare_by_bytes() {
    assert!(key(4).key_eq(&key(4)));
    assert!(!key(4).key_eq(&key(5)));
    let mut b = [0u8; 32];
    assert!(Pubkey::new_from_array(b).is_zero());
    b[31] = 1;
    assert!(!Pubkey::new_from_array(b).is_zero());
    assert!(!Pubkey::new_from_array(b).key_eq(&Pubkey::default()));
    assert!(Pubkey::default().is_zero());
}

#[test]
fn registry_keeps_one_vault_per_owner() {
    let mut reg = Registry::new();
    let ctx = Initialize { owner: key(1), token_mint: key(2) };
    assert_eq!(reg.create(&ctx, 100, key(3)), Ok(()));
    assert_eq!(reg.create(&ctx, 200, key(3)), Err(CustomError::AlreadyExists));
    let v = reg.load(&key(1)).unwrap();
    assert_eq!(v.target_price, 100);
    assert_eq!(reg.load(&key(7)).unwrap_err(), CustomError::NotFound);
}

#[test]
fn registry_store_keeps_owner_and_mint() {
    let mut reg = Registry::new();
    let ctx = Initialize { owner: key(1), token_mint: key(2) };
    reg.create(&ctx, 100, key(3)).unwrap();
    let mut v = reg.load(&key(1)).unwrap();
    v.current_price = 42;
    v.token_mint = key(8);
    assert_eq!(reg.store(v), Ok(()));
    let w = reg.load(&key(1)).unwrap();
    assert_eq!(w.current_price, 42);
    assert_eq!(w.token_mint.to_bytes(), [2u8; 32]);
    let stranger = vault(5, key(3));
    let mut other = stranger;
    other.owner = key(6);
    assert_eq!(reg.store(other), Err(CustomError::NotFound));
}

#[test]
fn record_layout_and_round_trip() {
    assert_eq!(Vault::LEN, 113);
    let mut v = vault(0x0102_0304_0506_0708, key(3));
    v.current_price = 258;
    v.ready_for_execution = true;
    let r = v.to_record();
    assert_eq!(r.len(), 113);
    assert_eq!(&r[0..32], &[1u8; 32]);
    assert_eq!(&r[32..64], &[2u8; 32]);
    assert_eq!(&r[64..72], &[8, 7, 6, 5, 4, 3, 2, 1]);
    assert_eq!(&r[72..104], &[3u8; 32]);
    assert_eq!(&r[104..112], &[2, 1, 0, 0, 0, 0, 0, 0]);
    assert_eq!(r[112], 1);
    let back = Vault::from_record(&r).unwrap();
    assert_eq!(back.owner.to_bytes(), [1u8; 32]);
    assert_eq!(back.token_mint.to_bytes(), [2u8; 32]);
    assert_eq!(back.target_price, 0x0102_0304_0506_0708);
    assert_eq!(back.referrer.to_bytes(), [3u8; 32]);
    assert_eq!(back.current_price, 258);
    assert!(back.ready_for_execution);
}

#[test]
fn malformed_records_are_refused() {
    let r = vault(1, key(3)).to_record();
    assert!(Vault::from_record(&r[..112]).is_none());
    let mut bad = r.clone();
    bad[112] = 2;
    assert!(Vault::from_record(&bad).is_none());
    let mut longer = r.clone();
    longer.push(0);
    assert!(Vault::from_record(&longer).is_none());
}
