use anchor_lang::prelude::Pubkey;
use simple_token_swap::acknowledge;
use simple_token_swap::deposit_to_vault_token_a;
use simple_token_swap::deposit_to_vault_token_b;
use simple_token_swap::ledger::pay_in;
use simple_token_swap::ledger::pay_out;
use simple_token_swap::AssetKind;
use simple_token_swap::Authority;
use simple_token_swap::Holder;
use simple_token_swap::TokenSwapError;
use simple_token_swap::TransferError;
use simple_token_swap::TransferOutcome;
use simple_token_swap::TransferRequest;

fn bob() -> Pubkey {
    Pubkey::new_from_array([2u8; 32])
}

#[test]
fn a_deposit_leg_goes_from_the_user_into_escrow_under_the_users_authority() {
    assert_eq!(
        deposit_to_vault_token_a(bob(), 77),
        TransferRequest {
            from: Holder::User(bob()),
            to: Holder::Vault,
            asset: AssetKind::A,
            amount: 77,
            authority: Authority::User,
        }
    );
    assert_eq!(
        deposit_to_vault_token_b(bob(), 0),
        TransferRequest {
            from: Holder::User(bob()),
            to: Holder::Vault,
            asset: AssetKind::B,
            amount: 0,
            authority: Authority::User,
        }
    );
    assert_eq!(pay_in(bob(), AssetKind::A, 77), deposit_to_vault_token_a(bob(), 77));
    assert_eq!(pay_in(bob(), AssetKind::B, 78), deposit_to_vault_token_b(bob(), 78));
}

#[test]
fn a_payout_leg_goes_from_escrow_to_the_user_under_the_vaults_authority() {
    assert_eq!(
        pay_out(bob(), AssetKind::B, 5),
        TransferRequest {
            from: Holder::Vault,
            to: Holder::User(bob()),
            asset: AssetKind::B,
            amount: 5,
            authority: Authority::Vault,
        }
    );
}

#[test]
fn a_rejected_leg_is_a_failed_transfer_with_the_ledgers_reason() {
    assert_eq!(acknowledge(TransferOutcome::Settled), Ok(()));
    assert_eq!(
        acknowledge(TransferOutcome::Rejected(TransferError { code: 6 })),
        Err(TokenSwapError::TransferFailed(TransferError { code: 6 }))
    );
    assert_eq!(
        acknowledge(TransferOutcome::Rejected(TransferError { code: 0 })),
        Err(TokenSwapError::TransferFailed(TransferError { code: 0 }))
    );
}
