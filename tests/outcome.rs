use call_env::error::CallError;
use call_env::outcome::{ensure_success, ExecutionOutcome};

#[test]
fn success_returns_output() {
    let r = ensure_success::<u8>(ExecutionOutcome::Success { output: vec![1, 2], gas_used: 5 });
    assert_eq!(r, Ok(vec![1, 2]));
}

#[test]
fn revert_carries_payload() {
    let r = ensure_success::<u8>(ExecutionOutcome::Revert { output: vec![0xde, 0xad, 0xbe, 0xef], gas_used: 5 });
    assert_eq!(r, Err(CallError::Revert { data: vec![0xde, 0xad, 0xbe, 0xef] }));
}

#[test]
fn halt_carries_no_payload() {
    let r = ensure_success(ExecutionOutcome::Halt { reason: 3u8, gas_used: 5 });
    assert_eq!(r, Err(CallError::Revert { data: Vec::new() }));
}
