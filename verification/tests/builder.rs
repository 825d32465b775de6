use creditcoin_admin::account::CreditcoinAccountId;
use creditcoin_admin::amount::Factor;
use creditcoin_admin::builder::{
    build_add_authority, build_set_balance, build_set_code, build_set_sudo_key, build_switch_to_pos,
    build_transfer, prepare, Extrinsic, Payload, RuntimeCall, SignerChoice, Weight,
};

fn account(byte: u8) -> CreditcoinAccountId {
    CreditcoinAccountId::from_bytes([byte; 32])
}

/// Decompose a nonnegative decimal factor the way the scaler reads it.
fn factor_of(x: f64) -> Factor {
    assert!(x >= 0.0);
    if x < 1.0 {
        Factor {
            negative: false,
            whole: 0,
            frac_divisor: x.recip().round() as u128,
        }
    } else {
        Factor {
            negative: false,
            whole: x.trunc() as u128,
            frac_divisor: x.fract().recip().round() as u128,
        }
    }
}

#[test]
fn transfer_of_two_and_a_half_tokens_carries_the_exact_base_units() {
    // End to end: `transfer <addr> 2.5` against 10^18 base units per token.
    let to = CreditcoinAccountId::from_str("5GrwvaEF5zXb26Fz9rcQpDWS57CtERHpNehXCPcNoHGKutQY")
        .unwrap();
    let (payload, signer) = prepare(Extrinsic::Transfer {
        to: to.clone(),
        amount: factor_of(2.5),
    });
    assert_eq!(
        payload,
        Payload::Plain(RuntimeCall::Transfer {
            to,
            amount: 2_500_000_000_000_000_000,
        })
    );
    assert_eq!(signer, SignerChoice::User);
}

#[test]
fn add_authority_is_privileged() {
    let (payload, signer) = prepare(Extrinsic::AddAuthority { who: account(1) });
    assert_eq!(
        payload,
        Payload::Sudo(RuntimeCall::AddAuthority { who: account(1) })
    );
    assert_eq!(signer, SignerChoice::Sudo);
    assert_eq!(payload, build_add_authority(account(1)));
}

#[test]
fn set_balance_is_privileged_and_reserves_nothing() {
    let (payload, signer) = prepare(Extrinsic::SetBalance {
        account: account(2),
        amount: factor_of(1.5),
    });
    assert_eq!(
        payload,
        Payload::Sudo(RuntimeCall::SetBalance {
            who: account(2),
            new_free: 1_500_000_000_000_000_000,
            new_reserved: 0,
        })
    );
    assert_eq!(signer, SignerChoice::Sudo);
}

#[test]
fn set_code_skips_weight_checking_with_the_identity_weight() {
    let code = vec![0u8, 97, 115, 109];
    let (payload, signer) = prepare(Extrinsic::SetCode { code: code.clone() });
    assert_eq!(
        payload,
        Payload::SudoUncheckedWeight(
            RuntimeCall::SetCode { code: code.clone() },
            Weight {
                ref_time: 1,
                proof_size: 1,
            }
        )
    );
    assert_eq!(signer, SignerChoice::Sudo);
    assert_eq!(payload, build_set_code(code));
}

#[test]
fn switch_to_pos_skips_weight_checking() {
    let (payload, signer) = prepare(Extrinsic::SwitchToPos);
    assert_eq!(
        payload,
        Payload::SudoUncheckedWeight(
            RuntimeCall::SwitchToPos,
            Weight {
                ref_time: 1,
                proof_size: 1,
            }
        )
    );
    assert_eq!(signer, SignerChoice::Sudo);
    assert_eq!(payload, build_switch_to_pos());
}

#[test]
fn set_sudo_key_is_the_direct_sudo_call() {
    // The sudo pallet's own set_key call carries no envelope; only the
    // signing key is privileged.
    let (payload, signer) = prepare(Extrinsic::SetSudoKey { who: account(3) });
    assert_eq!(
        payload,
        Payload::Plain(RuntimeCall::SetSudoKey { who: account(3) })
    );
    assert_eq!(signer, SignerChoice::Sudo);
    assert_eq!(payload, build_set_sudo_key(account(3)));
}

#[test]
fn plain_builders_carry_their_amounts() {
    let scaled = creditcoin_admin::amount::ctc_frac(&factor_of(0.5));
    let payload = build_transfer(account(4), scaled);
    assert_eq!(
        payload,
        Payload::Plain(RuntimeCall::Transfer {
            to: account(4),
            amount: 500_000_000_000_000_000,
        })
    );
    let payload = build_set_balance(account(5), scaled);
    assert_eq!(
        payload,
        Payload::Sudo(RuntimeCall::SetBalance {
            who: account(5),
            new_free: 500_000_000_000_000_000,
            new_reserved: 0,
        })
    );
}

#[test]
fn weights_multiply_component_wise() {
    assert_eq!(
        Weight::one(),
        Weight {
            ref_time: 1,
            proof_size: 1,
        }
    );
    let w = Weight {
        ref_time: 3,
        proof_size: 5,
    }
    .mul(Weight {
        ref_time: 7,
        proof_size: 11,
    });
    assert_eq!(
        w,
        Weight {
            ref_time: 21,
            proof_size: 55,
        }
    );
    // Multiplying by the identity weight changes nothing.
    let w2 = w.mul(Weight::one());
    assert_eq!(w2, w);
}
