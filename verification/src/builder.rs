//! Construction of the fixed set of transaction payloads.
//!
//! Each administrative command maps to exactly one runtime call, spelled out
//! here as plain values: which pallet and call, for which account, with which
//! already-scaled amount. A call that needs another pallet's privileged path
//! is wrapped in the sudo envelope — wrapping is a payload transformation, not
//! a property of the call — and the two code-path-sized calls (runtime
//! upgrade, consensus switch) additionally skip weight checking, declaring the
//! identity weight. The sudo pallet's own set-key call authenticates its
//! signer by itself and is submitted direct, with no envelope.

use vstd::prelude::*;

use crate::account::CreditcoinAccountId;
use crate::amount::{scale_pre, scale_spec, Ctc, Factor, CREDO_PER_CTC};

verus! {

/// The two-dimensional execution weight a weight-unchecked privileged call
/// declares: computation time and proof size.
#[derive(Clone, Copy, Debug, PartialEq, Eq, Structural)]
pub struct Weight {
    pub ref_time: u64,
    pub proof_size: u64,
}

impl Weight {
    /// The identity weight, declared where real weight accounting is
    /// irrelevant: one unit of computation time and one of proof size.
    pub fn one() -> (r: Weight)
        ensures
            r == (Weight { ref_time: 1, proof_size: 1 }),
    {
        Weight { ref_time: 1, proof_size: 1 }
    }

    /// Component-wise product of two weights.
    pub fn mul(self, rhs: Weight) -> (r: Weight)
        requires
            self.ref_time * rhs.ref_time <= u64::MAX,
            self.proof_size * rhs.proof_size <= u64::MAX,
        ensures
            r.ref_time == self.ref_time * rhs.ref_time,
            r.proof_size == self.proof_size * rhs.proof_size,
    {
        Weight { ref_time: self.ref_time * rhs.ref_time, proof_size: self.proof_size * rhs.proof_size }
    }
}

/// One runtime call, as this client constructs it.
#[derive(Clone, Debug, PartialEq, Eq)]
pub enum RuntimeCall {
    /// Creditcoin pallet: register `who` as an authority.
    AddAuthority { who: CreditcoinAccountId },
    /// Balances pallet: transfer `amount` base units to `to`.
    Transfer { to: CreditcoinAccountId, amount: u128 },
    /// Balances pallet: overwrite `who`'s balance with the given free and
    /// reserved base units.
    SetBalance { who: CreditcoinAccountId, new_free: u128, new_reserved: u128 },
    /// System pallet: replace the runtime code with the given binary image.
    SetCode { code: Vec<u8> },
    /// PosSwitch pallet: switch consensus to proof of stake; no arguments.
    SwitchToPos,
    /// Sudo pallet: reassign the privileged key to `who`.
    SetSudoKey { who: CreditcoinAccountId },
}

/// A call ready for signing: either as-is, or inside the privileged envelope,
/// with or without weight checking.
#[derive(Clone, Debug, PartialEq, Eq)]
pub enum Payload {
    /// Signed and submitted unchanged.
    Plain(RuntimeCall),
    /// Wrapped in the privileged (sudo) envelope.
    Sudo(RuntimeCall),
    /// Wrapped in the privileged envelope that skips weight checking,
    /// declaring the given weight.
    SudoUncheckedWeight(RuntimeCall, Weight),
}

/// Wrap a call in the privileged envelope.
pub fn sudo(call: RuntimeCall) -> (r: Payload)
    ensures
        r == Payload::Sudo(call),
{
    Payload::Sudo(call)
}

/// Wrap a call in the privileged envelope that skips weight checking.
pub fn sudo_unchecked_weight(call: RuntimeCall, weight: Weight) -> (r: Payload)
    ensures
        r == Payload::SudoUncheckedWeight(call, weight),
{
    Payload::SudoUncheckedWeight(call, weight)
}

/// Privileged: register `who` as an authority.
pub fn build_add_authority(who: CreditcoinAccountId) -> (r: Payload)
    ensures
        r == Payload::Sudo(RuntimeCall::AddAuthority { who }),
{
    sudo(RuntimeCall::AddAuthority { who })
}

/// Unprivileged: transfer the scaled amount to `to`.
pub fn build_transfer(to: CreditcoinAccountId, amount: Ctc) -> (r: Payload)
    ensures
        r == Payload::Plain(RuntimeCall::Transfer { to, amount: amount.0 }),
{
    Payload::Plain(RuntimeCall::Transfer { to, amount: amount.0 })
}

/// Privileged: overwrite `who`'s free balance with the scaled amount; the
/// reserved component is always zero.
pub fn build_set_balance(who: CreditcoinAccountId, amount: Ctc) -> (r: Payload)
    ensures
        r == Payload::Sudo(
            RuntimeCall::SetBalance { who, new_free: amount.0, new_reserved: 0 },
        ),
{
    sudo(RuntimeCall::SetBalance { who, new_free: amount.0, new_reserved: 0 })
}

/// Privileged, weight-unchecked: replace the runtime code with `code`.
pub fn build_set_code(code: Vec<u8>) -> (r: Payload)
    ensures
        r == Payload::SudoUncheckedWeight(RuntimeCall::SetCode { code }, Weight { ref_time: 1, proof_size: 1 }),
{
    sudo_unchecked_weight(RuntimeCall::SetCode { code }, Weight::one())
}

/// Privileged, weight-unchecked: switch consensus to proof of stake.
pub fn build_switch_to_pos() -> (r: Payload)
    ensures
        r == Payload::SudoUncheckedWeight(RuntimeCall::SwitchToPos, Weight { ref_time: 1, proof_size: 1 }),
{
    sudo_unchecked_weight(RuntimeCall::SwitchToPos, Weight::one())
}

/// Reassign the privileged key to `who`: the sudo pallet's own call, signed
/// by the privileged key but not wrapped in the envelope.
pub fn build_set_sudo_key(who: CreditcoinAccountId) -> (r: Payload)
    ensures
        r == Payload::Plain(RuntimeCall::SetSudoKey { who }),
{
    Payload::Plain(RuntimeCall::SetSudoKey { who })
}

/// Which key signs a payload: the operator's own, or the privileged one.
#[derive(Clone, Copy, Debug, PartialEq, Eq, Structural)]
pub enum SignerChoice {
    User,
    Sudo,
}

/// A fully typed send-extrinsic command: accounts already decoded, amounts
/// already decomposed, the code image already read.
#[derive(Clone, Debug, PartialEq, Eq)]
pub enum Extrinsic {
    AddAuthority { who: CreditcoinAccountId },
    Transfer { to: CreditcoinAccountId, amount: Factor },
    SetBalance { account: CreditcoinAccountId, amount: Factor },
    SetCode { code: Vec<u8> },
    SwitchToPos,
    SetSudoKey { who: CreditcoinAccountId },
}

/// An amount a command may carry: one meeting the scaler's precondition at
/// the chain's base unit.
pub open spec fn amount_ok(f: Factor) -> bool {
    scale_pre(CREDO_PER_CTC, f)
}

/// Map one command to the payload to submit and the key that signs it:
/// amounts are scaled to base units; the add-authority, set-balance, set-code
/// and consensus-switch commands go through the privileged envelope, while the
/// transfer and the sudo pallet's own set-key call are submitted direct.
pub fn prepare(cmd: Extrinsic) -> (r: (Payload, SignerChoice))
    requires
        cmd matches Extrinsic::Transfer { amount, .. } ==> amount_ok(amount),
        cmd matches Extrinsic::SetBalance { amount, .. } ==> amount_ok(amount),
    ensures
        cmd matches Extrinsic::AddAuthority { who } ==> r == (
            Payload::Sudo(RuntimeCall::AddAuthority { who }),
            SignerChoice::Sudo,
        ),
        cmd matches Extrinsic::Transfer { to, amount } ==> r == (
            Payload::Plain(
                RuntimeCall::Transfer {
                    to,
                    amount: scale_spec(CREDO_PER_CTC, amount.whole, amount.frac_divisor) as u128,
                },
            ),
            SignerChoice::User,
        ),
        cmd matches Extrinsic::SetBalance { account, amount } ==> r == (
            Payload::Sudo(
                RuntimeCall::SetBalance {
                    who: account,
                    new_free: scale_spec(
                        CREDO_PER_CTC,
                        amount.whole,
                        amount.frac_divisor,
                    ) as u128,
                    new_reserved: 0,
                },
            ),
            SignerChoice::Sudo,
        ),
        cmd matches Extrinsic::SetCode { code } ==> r == (
            Payload::SudoUncheckedWeight(
                RuntimeCall::SetCode { code },
                Weight { ref_time: 1, proof_size: 1 },
            ),
            SignerChoice::Sudo,
        ),
        cmd is SwitchToPos ==> r == (
            Payload::SudoUncheckedWeight(
                RuntimeCall::SwitchToPos,
                Weight { ref_time: 1, proof_size: 1 },
            ),
            SignerChoice::Sudo,
        ),
        cmd matches Extrinsic::SetSudoKey { who } ==> r == (
            Payload::Plain(RuntimeCall::SetSudoKey { who }),
            SignerChoice::Sudo,
        ),
{
    match cmd {
        Extrinsic::AddAuthority { who } => (build_add_authority(who), SignerChoice::Sudo),
        Extrinsic::Transfer { to, amount } => {
            let scaled = crate::amount::ctc_frac(&amount);
            (build_transfer(to, scaled), SignerChoice::User)
        },
        Extrinsic::SetBalance { account, amount } => {
            let scaled = crate::amount::ctc_frac(&amount);
            (build_set_balance(account, scaled), SignerChoice::Sudo)
        },
        Extrinsic::SetCode { code } => (build_set_code(code), SignerChoice::Sudo),
        Extrinsic::SwitchToPos => (build_switch_to_pos(), SignerChoice::Sudo),
        Extrinsic::SetSudoKey { who } => (build_set_sudo_key(who), SignerChoice::Sudo),
    }
}

} // verus!
