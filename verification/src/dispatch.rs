//! The dispatcher: resolves a policy by name, splits the amount into a
//! net part and a fee part, and describes the `transfer_checked` calls
//! the ledger must run, together with the emitted transfer record.

use crate::registry::find_action;
use crate::registry::find_action_config;
use crate::registry::lemma_find_action;
use crate::registry::Config;
use crate::registry::CustomError;
use crate::registry::Identity;
use vstd::prelude::*;

verus! {

/// What the dispatcher reads from the mint account: its identity and
/// the token's number of decimal places.
#[derive(Clone, Copy, PartialEq, Eq, Structural, Debug)]
pub struct MintInfo {
    pub key: Identity,
    pub decimals: u8,
}

/// The accounts a platform dispatch works over: payer, the two
/// collector wallets, the mint, and the transfer authority.
#[derive(Clone, Copy, PartialEq, Eq, Structural, Debug)]
pub struct PlatformAction {
    pub from: Identity,
    pub platform_wallet: Identity,
    pub fee_wallet: Identity,
    pub mint: MintInfo,
    pub authority: Identity,
}

/// The accounts a user dispatch works over: payer, the receiver, the
/// fee wallet, the mint, and the transfer authority.
#[derive(Clone, Copy, PartialEq, Eq, Structural, Debug)]
pub struct UserAction {
    pub from: Identity,
    pub receiver_wallet: Identity,
    pub fee_wallet: Identity,
    pub mint: MintInfo,
    pub authority: Identity,
}

/// The record emitted for observers after a successful dispatch.
#[derive(Debug)]
pub struct TransferEvent {
    pub action: String,
    pub amount: u64,
    pub fee_percent: u8,
    pub from: Identity,
    pub to: Identity,
}

/// One `transfer_checked` call for the ledger to run: move `amount`
/// units of `mint` (at its declared `decimals`) from `from` to `to`,
/// authorized by `authority`.
#[derive(Clone, Copy, PartialEq, Eq, Structural, Debug)]
pub struct TransferInstruction {
    pub from: Identity,
    pub to: Identity,
    pub authority: Identity,
    pub mint: Identity,
    pub amount: u64,
    pub decimals: u8,
}

/// Everything a successful dispatch asks of its surroundings: the event
/// to emit, the net transfer, and the fee transfer when the fee is
/// nonzero.
#[derive(Debug)]
pub struct DispatchPlan {
    pub event: TransferEvent,
    pub net: TransferInstruction,
    pub fee: Option<TransferInstruction>,
}

/// The fee retained from `amount` at `fee_percent`: a single floor
/// division, no other rounding.
pub open spec fn fee_of(amount: u64, fee_percent: u64) -> int {
    amount * fee_percent / 100
}

/// Fee-split conservation: for any percentage in [0, 100] the fee is at
/// most the amount, and fee plus net gives the amount back exactly.
pub proof fn lemma_fee_split(amount: u64, fee_percent: u64)
    requires
        fee_percent <= 100,
    ensures
        0 <= fee_of(amount, fee_percent) <= amount,
        fee_of(amount, fee_percent) + (amount - fee_of(amount, fee_percent)) == amount,
{
    assert(0 <= amount * fee_percent / 100 <= amount) by (nonlinear_arith)
        requires
            0 <= amount,
            0 <= fee_percent <= 100,
    ;
}

/// The pair of ledger calls a dispatch of `amount` at `fee_percent`
/// must produce: the net part from `from` to `to`, and the fee part,
/// present exactly when the fee is nonzero, from `from` to
/// `fee_wallet`; both authorized by `authority` over `mint`.
pub open spec fn split_ok(
    net: TransferInstruction,
    fee: Option<TransferInstruction>,
    from: Identity,
    to: Identity,
    fee_wallet: Identity,
    authority: Identity,
    mint: MintInfo,
    amount: u64,
    fee_percent: u64,
) -> bool {
    &&& net.from == from
    &&& net.to == to
    &&& net.authority == authority
    &&& net.mint == mint.key
    &&& net.decimals == mint.decimals
    &&& net.amount == amount - fee_of(amount, fee_percent)
    &&& match fee {
        Some(f) => {
            &&& fee_of(amount, fee_percent) > 0
            &&& f.from == from
            &&& f.to == fee_wallet
            &&& f.authority == authority
            &&& f.mint == mint.key
            &&& f.decimals == mint.decimals
            &&& f.amount == fee_of(amount, fee_percent)
        },
        None => fee_of(amount, fee_percent) == 0,
    }
}

/// A zero fee percentage never yields a fee transfer: any split of any
/// amount at percentage 0 carries the whole amount in the net call and
/// describes no fee call.
pub proof fn lemma_no_fee_when_zero_percent(
    net: TransferInstruction,
    fee: Option<TransferInstruction>,
    from: Identity,
    to: Identity,
    fee_wallet: Identity,
    authority: Identity,
    mint: MintInfo,
    amount: u64,
)
    requires
        split_ok(net, fee, from, to, fee_wallet, authority, mint, amount, 0),
    ensures
        fee is None,
        net.amount == amount,
{
    assert(fee_of(amount, 0) == 0);
}

/// Computes the floor fee split of `amount` at `fee_percent`, widening
/// the multiplication so it cannot wrap before the division.
fn fee_split(amount: u64, fee_percent: u64) -> (r: (u64, u64))
    requires
        fee_percent <= 100,
    ensures
        r.0 == fee_of(amount, fee_percent),
        r.1 == amount - fee_of(amount, fee_percent),
{
    proof {
        lemma_fee_split(amount, fee_percent);
        assert(amount * fee_percent <= u64::MAX * 100) by (nonlinear_arith)
            requires
                amount <= u64::MAX,
                0 <= fee_percent <= 100,
        ;
    }
    let wide: u128 = (amount as u128) * (fee_percent as u128) / 100;
    let fee_amount: u64 = wide as u64;
    let net_amount: u64 = amount - fee_amount;
    (fee_amount, net_amount)
}

/// Builds the ledger calls of a platform dispatch: the net amount to
/// the platform wallet, then the fee, when nonzero, to the fee wallet.
/// A zero amount is rejected before any call is described.
pub fn transfer_with_platform_fee(accounts: &PlatformAction, amount: u64, fee_percent: u64) -> (r:
    Result<(TransferInstruction, Option<TransferInstruction>), CustomError>)
    requires
        fee_percent <= 100,
    ensures
        match r {
            Ok(p) => amount > 0 && split_ok(
                p.0,
                p.1,
                accounts.from,
                accounts.platform_wallet,
                accounts.fee_wallet,
                accounts.authority,
                accounts.mint,
                amount,
                fee_percent,
            ),
            Err(e) => e == CustomError::IncorrectAmount && amount == 0,
        },
{
    if amount == 0 {
        return Err(CustomError::IncorrectAmount);
    }
    let (fee_amount, net_amount) = fee_split(amount, fee_percent);
    let net = TransferInstruction {
        from: accounts.from,
        to: accounts.platform_wallet,
        authority: accounts.authority,
        mint: accounts.mint.key,
        amount: net_amount,
        decimals: accounts.mint.decimals,
    };
    let fee = if fee_amount > 0 {
        Some(
            TransferInstruction {
                from: accounts.from,
                to: accounts.fee_wallet,
                authority: accounts.authority,
                mint: accounts.mint.key,
                amount: fee_amount,
                decimals: accounts.mint.decimals,
            },
        )
    } else {
        None
    };
    Ok((net, fee))
}

/// Builds the ledger calls of a user dispatch: the net amount to the
/// receiver wallet, then the fee, when nonzero, to the fee wallet.
/// A zero amount is rejected before any call is described.
pub fn transfer_with_user_fee(accounts: &UserAction, amount: u64, fee_percent: u64) -> (r: Result<
    (TransferInstruction, Option<TransferInstruction>),
    CustomError,
>)
    requires
        fee_percent <= 100,
    ensures
        match r {
            Ok(p) => amount > 0 && split_ok(
                p.0,
                p.1,
                accounts.from,
                accounts.receiver_wallet,
                accounts.fee_wallet,
                accounts.authority,
                accounts.mint,
                amount,
                fee_percent,
            ),
            Err(e) => e == CustomError::IncorrectAmount && amount == 0,
        },
{
    if amount == 0 {
        return Err(CustomError::IncorrectAmount);
    }
    let (fee_amount, net_amount) = fee_split(amount, fee_percent);
    let net = TransferInstruction {
        from: accounts.from,
        to: accounts.receiver_wallet,
        authority: accounts.authority,
        mint: accounts.mint.key,
        amount: net_amount,
        decimals: accounts.mint.decimals,
    };
    let fee = if fee_amount > 0 {
        Some(
            TransferInstruction {
                from: accounts.from,
                to: accounts.fee_wallet,
                authority: accounts.authority,
                mint: accounts.mint.key,
                amount: fee_amount,
                decimals: accounts.mint.decimals,
            },
        )
    } else {
        None
    };
    Ok((net, fee))
}

/// Platform dispatch: the presented mint must be the configured one,
/// the policy named `action` must exist and be a platform policy, and
/// its fixed price (the caller's `_amount` is ignored) is split between
/// the platform wallet and the fee wallet.
pub fn platform_action(
    config: &Config,
    accounts: &PlatformAction,
    action: String,
    _amount: u64,
) -> (r: Result<DispatchPlan, CustomError>)
    requires
        config.wf(),
    ensures
        match r {
            Ok(plan) => accounts.mint.key == config.token_mint && (match find_action(
                config.actions@,
                action@,
            ) {
                Some(i) => {
                    let p = config.actions@[i];
                    &&& p.is_platform_action
                    &&& p.price > 0
                    &&& plan.event.action@ == action@
                    &&& plan.event.amount == p.price
                    &&& plan.event.fee_percent == p.fee_percent
                    &&& plan.event.from == accounts.from
                    &&& plan.event.to == accounts.platform_wallet
                    &&& split_ok(
                        plan.net,
                        plan.fee,
                        accounts.from,
                        accounts.platform_wallet,
                        accounts.fee_wallet,
                        accounts.authority,
                        accounts.mint,
                        p.price,
                        p.fee_percent as u64,
                    )
                },
                None => false,
            }),
            Err(e) => {
                if accounts.mint.key != config.token_mint {
                    e == CustomError::WrongTokenMint
                } else {
                    match find_action(config.actions@, action@) {
                        Some(i) => {
                            let p = config.actions@[i];
                            if !p.is_platform_action {
                                e == CustomError::InvalidPlatformAction
                            } else {
                                e == CustomError::IncorrectAmount && p.price == 0
                            }
                        },
                        None => e == CustomError::InvalidAction,
                    }
                }
            },
        },
{
    if !(accounts.mint.key == config.token_mint) {
        return Err(CustomError::WrongTokenMint);
    }
    let index = match find_action_config(&config.actions, &action) {
        Ok(i) => i,
        Err(e) => {
            return Err(e);
        },
    };
    proof {
        lemma_find_action(config.actions@, action@);
    }
    let is_platform = config.actions[index].is_platform_action;
    if !is_platform {
        return Err(CustomError::InvalidPlatformAction);
    }
    let transfer_amount = config.actions[index].price;
    let fee_percent = config.actions[index].fee_percent;
    let (net, fee) = match transfer_with_platform_fee(accounts, transfer_amount, fee_percent
        as u64) {
        Ok(p) => p,
        Err(e) => {
            return Err(e);
        },
    };
    Ok(
        DispatchPlan {
            event: TransferEvent {
                action,
                amount: transfer_amount,
                fee_percent,
                from: accounts.from,
                to: accounts.platform_wallet,
            },
            net,
            fee,
        },
    )
}

/// User dispatch: the presented mint must be the configured one, the
/// policy named `action` must exist and be a user policy; the amount is
/// the caller's `amount` for a variable policy and the fixed price
/// otherwise, split between the receiver wallet and the fee wallet.
pub fn user_action(
    config: &Config,
    accounts: &UserAction,
    action: String,
    amount: u64,
) -> (r: Result<DispatchPlan, CustomError>)
    requires
        config.wf(),
    ensures
        match r {
            Ok(plan) => accounts.mint.key == config.token_mint && (match find_action(
                config.actions@,
                action@,
            ) {
                Some(i) => {
                    let p = config.actions@[i];
                    let used = if p.is_variable {
                        amount
                    } else {
                        p.price
                    };
                    &&& !p.is_platform_action
                    &&& used > 0
                    &&& plan.event.action@ == action@
                    &&& plan.event.amount == used
                    &&& plan.event.fee_percent == p.fee_percent
                    &&& plan.event.from == accounts.from
                    &&& plan.event.to == accounts.receiver_wallet
                    &&& split_ok(
                        plan.net,
                        plan.fee,
                        accounts.from,
                        accounts.receiver_wallet,
                        accounts.fee_wallet,
                        accounts.authority,
                        accounts.mint,
                        used,
                        p.fee_percent as u64,
                    )
                },
                None => false,
            }),
            Err(e) => {
                if accounts.mint.key != config.token_mint {
                    e == CustomError::WrongTokenMint
                } else {
                    match find_action(config.actions@, action@) {
                        Some(i) => {
                            let p = config.actions@[i];
                            if p.is_platform_action {
                                e == CustomError::InvalidUserAction
                            } else {
                                e == CustomError::IncorrectAmount && (if p.is_variable {
                                    amount
                                } else {
                                    p.price
                                }) == 0
                            }
                        },
                        None => e == CustomError::InvalidAction,
                    }
                }
            },
        },
{
    if !(accounts.mint.key == config.token_mint) {
        return Err(CustomError::WrongTokenMint);
    }
    let index = match find_action_config(&config.actions, &action) {
        Ok(i) => i,
        Err(e) => {
            return Err(e);
        },
    };
    proof {
        lemma_find_action(config.actions@, action@);
    }
    if config.actions[index].is_platform_action {
        return Err(CustomError::InvalidUserAction);
    }
    let transfer_amount = if config.actions[index].is_variable {
        amount
    } else {
        config.actions[index].price
    };
    let fee_percent = config.actions[index].fee_percent;
    let (net, fee) = match transfer_with_user_fee(accounts, transfer_amount, fee_percent as u64) {
        Ok(p) => p,
        Err(e) => {
            return Err(e);
        },
    };
    Ok(
        DispatchPlan {
            event: TransferEvent {
                action,
                amount: transfer_amount,
                fee_percent,
                from: accounts.from,
                to: accounts.receiver_wallet,
            },
            net,
            fee,
        },
    )
}

} // verus!
