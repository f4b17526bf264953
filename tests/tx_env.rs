use call_env::amount::Amount;
use call_env::error::CallError;
use call_env::evm_env::{build_evm_env, ExecConfig};
use call_env::request::{Address, BlockContext, CallRequest, TxKind};
use call_env::tx_env::{build_tx_env, caller_gas_allowance, cap_tx_gas_limit_with_caller_allowance, create_txn_env, TxEnvStep};

fn block() -> BlockContext {
    BlockContext { base_fee: 100, gas_limit: 30_000_000, blob_gas_price: Some(1) }
}

fn request() -> CallRequest<u8, u8> {
    CallRequest::empty()
}

#[test]
fn empty_blob_hash_list_is_rejected() {
    let mut r = request();
    r.blob_versioned_hashes = Some(Vec::new());
    r.max_fee_per_gas = Some(150);
    assert_eq!(create_txn_env(&block(), r.clone()), Err(CallError::BlobTransactionMissingBlobHashes));
    r.gas_price = Some(5);
    assert_eq!(build_tx_env(&block(), r, 1_000).unwrap_err(), CallError::BlobTransactionMissingBlobHashes);
}

#[test]
fn defaults_fill_absent_fields() {
    let env = create_txn_env(&block(), request()).unwrap();
    assert_eq!(env.caller, Address { bytes: [0u8; 20] });
    assert_eq!(env.kind, TxKind::Create);
    assert_eq!(env.value, Amount::zero());
    assert_eq!(env.gas_limit, 30_000_000);
    assert_eq!(env.gas_price, 0);
    assert_eq!(env.gas_priority_fee, None);
    assert!(env.data.is_empty() && env.access_list.is_empty() && env.blob_hashes.is_empty());
    assert!(env.authorization_list.is_empty());
    assert_eq!(env.tx_type, 0);
    assert_eq!(env.max_fee_per_blob_gas, 0);
}

#[test]
fn request_fields_are_carried() {
    let mut r = request();
    let to = Address { bytes: [7u8; 20] };
    r.from = Some(Address { bytes: [1u8; 20] });
    r.to = Some(TxKind::Call(to));
    r.gas = Some(21_000);
    r.input = Some(vec![1, 2, 3]);
    r.nonce = Some(9);
    r.chain_id = Some(1);
    r.blob_versioned_hashes = Some(vec![[3u8; 32]]);
    r.max_fee_per_gas = Some(150);
    r.max_fee_per_blob_gas = Some(6);
    r.access_list = Some(vec![4]);
    r.authorization_list = Some(vec![5]);
    r.transaction_type = Some(3);
    let env = create_txn_env(&block(), r).unwrap();
    assert_eq!(env.caller, Address { bytes: [1u8; 20] });
    assert_eq!(env.kind, TxKind::Call(to));
    assert_eq!(env.gas_limit, 21_000);
    assert_eq!(env.data, vec![1, 2, 3]);
    assert_eq!(env.nonce, Some(9));
    assert_eq!(env.chain_id, Some(1));
    assert_eq!(env.blob_hashes, vec![[3u8; 32]]);
    assert_eq!(env.gas_price, 100);
    assert_eq!(env.max_fee_per_blob_gas, 6);
    assert_eq!(env.access_list, vec![4]);
    assert_eq!(env.authorization_list, vec![5]);
    assert_eq!(env.tx_type, 3);
}

#[test]
fn fee_errors_pass_through() {
    let mut r = request();
    r.max_fee_per_gas = Some(50);
    assert_eq!(create_txn_env(&block(), r), Err(CallError::FeeCapTooLow));
}

#[test]
fn build_discards_nonce_and_keeps_explicit_gas() {
    let mut r = request();
    r.nonce = Some(4);
    r.gas = Some(50_000);
    r.gas_price = Some(10);
    match build_tx_env(&block(), r, 1_000).unwrap() {
        TxEnvStep::Ready(env) => {
            assert_eq!(env.nonce, None);
            assert_eq!(env.gas_limit, 50_000);
        }
        TxEnvStep::NeedsCallerBalance(_) => panic!("an explicit gas limit needs no balance"),
    }
}

#[test]
fn zero_price_takes_gas_ceiling_without_balance() {
    match build_tx_env(&block(), request(), 1_000).unwrap() {
        TxEnvStep::Ready(env) => assert_eq!(env.gas_limit, 1_000),
        TxEnvStep::NeedsCallerBalance(_) => panic!("a zero price needs no balance"),
    }
}

#[test]
fn allowance_caps_gas_limit() {
    let mut r = request();
    r.gas_price = Some(10);
    let mut env = match build_tx_env(&block(), r, 1_000).unwrap() {
        TxEnvStep::NeedsCallerBalance(env) => env,
        TxEnvStep::Ready(_) => panic!("a positive price without gas limit needs the balance"),
    };
    assert_eq!(env.gas_limit, 30_000_000);
    cap_tx_gas_limit_with_caller_allowance(Some(Amount::from_u64(1_000_000)), &mut env).unwrap();
    assert_eq!(env.gas_limit, 100_000);
}

#[test]
fn allowance_subtracts_value() {
    let mut env = create_txn_env(&block(), request()).unwrap();
    env.gas_price = 7;
    env.value = Amount::from_u64(300);
    let a = caller_gas_allowance(Some(Amount::from_u64(1_000)), &env).unwrap();
    assert_eq!(a, Amount::from_u64(100));
    let none = caller_gas_allowance(None, &env);
    assert_eq!(none, Err(CallError::InsufficientFunds { cost: Amount::from_u64(300), balance: Amount::zero() }));
}

#[test]
fn insufficient_funds() {
    let mut env = create_txn_env(&block(), request()).unwrap();
    env.gas_price = 10;
    env.value = Amount::from_u64(400);
    let r = cap_tx_gas_limit_with_caller_allowance(Some(Amount::from_u64(300)), &mut env);
    assert_eq!(r, Err(CallError::InsufficientFunds { cost: Amount::from_u64(400), balance: Amount::from_u64(300) }));
    assert_eq!(env.gas_limit, 30_000_000);
}

#[test]
fn allowance_too_wide_keeps_gas_limit() {
    let mut env = create_txn_env(&block(), request()).unwrap();
    env.gas_price = 1;
    let rich = Amount::from_limbs([0, 0, 1, 0]);
    cap_tx_gas_limit_with_caller_allowance(Some(rich), &mut env).unwrap();
    assert_eq!(env.gas_limit, 30_000_000);
    let wide = caller_gas_allowance(Some(rich), &env).unwrap();
    assert_eq!(wide, rich);
}

#[test]
fn allowance_just_fits() {
    let mut env = create_txn_env(&block(), request()).unwrap();
    env.gas_price = 2;
    let bal = Amount::from_limbs([u64::MAX - 1, 1, 0, 0]);
    cap_tx_gas_limit_with_caller_allowance(Some(bal), &mut env).unwrap();
    assert_eq!(env.gas_limit, u64::MAX);
}

#[test]
fn pipeline_repeats_identically() {
    let mut r = request();
    r.max_fee_per_gas = Some(150);
    r.max_priority_fee_per_gas = Some(20);
    let a = build_tx_env(&block(), r.clone(), 1_000);
    let b = build_tx_env(&block(), r, 1_000);
    assert_eq!(a, b);
}

#[test]
fn evm_env_relaxes_checks() {
    let cfg = ExecConfig { chain_id: 1, disable_block_gas_limit: false, disable_eip3607: false, disable_base_fee: false };
    let env = build_evm_env(cfg, block()).unwrap();
    assert!(env.cfg.disable_block_gas_limit && env.cfg.disable_eip3607 && env.cfg.disable_base_fee);
    assert_eq!(env.cfg.chain_id, 1);
    assert_eq!(env.block, block());
}
