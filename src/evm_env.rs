//! The execution configuration of a simulated call.
use crate::error::CallError;
use crate::request::BlockContext;
use vstd::prelude::*;

verus! {

/// The parts of the executor's configuration that simulation adjusts.
#[derive(Clone, Copy, Debug, PartialEq, Eq)]
pub struct ExecConfig {
    pub chain_id: u64,
    /// Let a single call use more gas than the block's gas limit.
    pub disable_block_gas_limit: bool,
    /// Let a sender with deployed code send the call.
    pub disable_eip3607: bool,
    /// Accept a gas price below the block's base fee.
    pub disable_base_fee: bool,
}

/// The configuration and block a simulated call executes in.
#[derive(Clone, Copy, Debug, PartialEq, Eq)]
pub struct EvmEnvironment {
    pub cfg: ExecConfig,
    pub block: BlockContext,
}

/// Composes the configuration with the block, after turning off the block gas
/// limit, the check that the sender has no code, and base-fee enforcement.
pub fn build_evm_env(cfg: ExecConfig, block: BlockContext) -> (r: Result<EvmEnvironment, CallError>)
    ensures
        r is Ok,
        r->Ok_0.cfg.chain_id == cfg.chain_id,
        r->Ok_0.cfg.disable_block_gas_limit,
        r->Ok_0.cfg.disable_eip3607,
        r->Ok_0.cfg.disable_base_fee,
        r->Ok_0.block == block,
{
    let mut cfg = cfg;
    cfg.disable_block_gas_limit = true;
    cfg.disable_eip3607 = true;
    cfg.disable_base_fee = true;
    Ok(EvmEnvironment { cfg, block })
}

} // verus!
