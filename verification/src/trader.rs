use vstd::prelude::*;
use crate::chain::{check_token_program, token_account_amount, token_account_amount_of, token_program_accepted};
use crate::error::{TradeBotErrors, TradeBotResult};
use crate::instruction::{DecommissionTrader, Deposit, RegisterTrader, UpdateTrader};
use crate::processor::{outcome_of, plan_result, seed_of, signer_of, CpiAction, Invocation, Outcome, Plan, PlanView, Processor};
use crate::state::{decoded_state, TraderState, TraderStatus, TRADER_STATE_LEN};
use crate::wire::{keys_equal, Pubkey};

verus! {

/// What `RegisterTrader` reads from its accounts: their keys and the data of
/// the initializer's two token wallets.
pub struct RegisterTraderAccounts {
    pub initializer: Pubkey,
    pub serum_market: Pubkey,
    pub base_market_wallet: Pubkey,
    pub quote_market_wallet: Pubkey,
    pub trader_signer: Pubkey,
    pub serum_open_orders: Pubkey,
    pub initializer_base_wallet: Pubkey,
    pub initializer_quote_wallet: Pubkey,
    pub token_program: Pubkey,
    pub serum_program: Pubkey,
    pub initializer_base_wallet_data: Vec<u8>,
    pub initializer_quote_wallet_data: Vec<u8>,
    /// The length of the new trader account's data; the record is written
    /// only into exactly `TRADER_STATE_LEN` bytes.
    pub trader_data_len: usize,
}

/// What `Deposit` reads from its accounts.
pub struct DepositAccounts {
    pub initializer: Pubkey,
    pub base_market_wallet: Pubkey,
    pub quote_market_wallet: Pubkey,
    pub trader_signer: Pubkey,
    pub initializer_base_wallet: Pubkey,
    pub initializer_quote_wallet: Pubkey,
    pub token_program: Pubkey,
    pub trader_data: Vec<u8>,
    pub initializer_base_wallet_data: Vec<u8>,
    pub initializer_quote_wallet_data: Vec<u8>,
}

/// What `UpdateTrader` and `DecommissionTrader` read: who asks, whether they
/// signed, and the trader account's data.
pub struct TraderOwnerAccounts {
    pub initializer: Pubkey,
    pub initializer_is_signer: bool,
    pub trader_data: Vec<u8>,
}

/// The space of a serum open-orders account.
pub const OPEN_ORDERS_SPACE: u64 = 3228;

/// The record of a newly registered trader.
pub open spec fn registered_trader(a: RegisterTraderAccounts, ix: RegisterTrader) -> TraderState {
    TraderState {
        market_address: a.serum_market,
        base_trader_wallet: a.base_market_wallet,
        quote_trader_wallet: a.quote_market_wallet,
        serum_open_orders: a.serum_open_orders,
        trader_signer: a.trader_signer,
        owner: a.initializer,
        min_trade_profit: ix.trade_profit,
        stopping_price: ix.stopping_price,
        starting_price_buy: ix.starting_price_buy,
        starting_price_sell: ix.starting_price_sell,
        simultaneous_open_positions: ix.simultaneous_open_positions,
        starting_base_balance: ix.starting_base_balance,
        starting_quote_balance: ix.starting_quote_balance,
        deposited_base_balance: 0,
        deposited_quote_balance: 0,
        withdrawn_base_balance: 0,
        withdrawn_quote_balance: 0,
        starting_value: ix.starting_value,
        base_balance: ix.starting_base_balance,
        quote_balance: ix.starting_quote_balance,
        value: ix.starting_value,
        open_order_pairs: 0,
        total_txs: 0,
        register_date: ix.register_date,
        status: TraderStatus::Registered,
        _padding: vstd::array::spec_array_fill_for_copy_type::<u64, 17>(0u64),
    }
}

/// Registration moves the starting balances into the market wallets, creates
/// the open-orders account (signed by the trader signer), and hands both
/// market wallets to the trader signer.
pub open spec fn register_invocations(a: RegisterTraderAccounts, ix: RegisterTrader) -> Seq<Invocation> {
    seq![
        Invocation {
            action: CpiAction::Transfer {
                token_program: a.token_program,
                source: a.initializer_base_wallet,
                destination: a.base_market_wallet,
                authority: a.initializer,
                amount: ix.starting_base_balance,
            },
            signed: false,
        },
        Invocation {
            action: CpiAction::Transfer {
                token_program: a.token_program,
                source: a.initializer_quote_wallet,
                destination: a.quote_market_wallet,
                authority: a.initializer,
                amount: ix.starting_quote_balance,
            },
            signed: false,
        },
        Invocation {
            action: CpiAction::CreateAccount {
                from: a.trader_signer,
                to: a.serum_open_orders,
                lamports: ix.serum_open_orders_rent,
                space: OPEN_ORDERS_SPACE,
                owner: a.serum_program,
            },
            signed: true,
        },
        Invocation {
            action: CpiAction::SetAccountOwner {
                token_program: a.token_program,
                account: a.base_market_wallet,
                new_owner: a.trader_signer,
                current_owner: a.initializer,
            },
            signed: false,
        },
        Invocation {
            action: CpiAction::SetAccountOwner {
                token_program: a.token_program,
                account: a.quote_market_wallet,
                new_owner: a.trader_signer,
                current_owner: a.initializer,
            },
            signed: false,
        },
    ]
}

/// `RegisterTrader`: the trader signer must be the address derived from the
/// market and the initializer (else `InvalidInstruction`); the initializer's
/// wallets must hold the starting balances (else `InsufficientTokens`).
/// Unreadable wallets, an overflowing seed byte, a missing bump, a token
/// program that spl-token refuses and a trader account whose data is not
/// exactly one record long abort.
pub open spec fn register_trader_outcome(program_id: Pubkey, a: RegisterTraderAccounts, ix: RegisterTrader) -> Outcome {
    match signer_of(a.serum_market, a.initializer, program_id) {
        None => None,
        Some((pda, nonce)) => if pda != a.trader_signer@ {
            Some(Err(TradeBotErrors::InvalidInstruction))
        } else {
            match (
                token_account_amount_of(a.initializer_base_wallet_data@),
                token_account_amount_of(a.initializer_quote_wallet_data@),
            ) {
                (Some(base), Some(quote)) => if base < ix.starting_base_balance || quote
                    < ix.starting_quote_balance {
                    Some(Err(TradeBotErrors::InsufficientTokens))
                } else if !token_program_accepted(a.token_program@) || a.trader_data_len
                    != TRADER_STATE_LEN {
                    None
                } else {
                    Some(
                        Ok(
                            PlanView {
                                seed: seed_of(a.serum_market, a.initializer),
                                nonce,
                                invocations: register_invocations(a, ix),
                                trader: registered_trader(a, ix),
                            },
                        ),
                    )
                },
                _ => None,
            }
        },
    }
}

/// `Deposit`: the trader signer must be the address derived from the
/// trader's market and owner (else `InvalidInstruction`); the initializer's
/// wallets must hold the amounts (else `InsufficientTokens`). The amounts are
/// moved to the market wallets and added to the balances and deposit totals;
/// an overflowing sum aborts, as do unreadable accounts.
pub open spec fn deposit_outcome(program_id: Pubkey, a: DepositAccounts, ix: Deposit) -> Outcome {
    match decoded_state(a.trader_data@) {
        None => None,
        Some(t) => match signer_of(t.market_address, t.owner, program_id) {
            None => None,
            Some((pda, nonce)) => if pda != a.trader_signer@ {
                Some(Err(TradeBotErrors::InvalidInstruction))
            } else {
                match (
                    token_account_amount_of(a.initializer_base_wallet_data@),
                    token_account_amount_of(a.initializer_quote_wallet_data@),
                ) {
                    (Some(base), Some(quote)) => if base < ix.base_amount || quote
                        < ix.quote_amount {
                        Some(Err(TradeBotErrors::InsufficientTokens))
                    } else if !token_program_accepted(a.token_program@) {
                        None
                    } else if t.base_balance + ix.base_amount > u64::MAX || t.quote_balance
                        + ix.quote_amount > u64::MAX || t.deposited_base_balance + ix.base_amount
                        > u64::MAX || t.deposited_quote_balance + ix.quote_amount > u64::MAX {
                        None
                    } else {
                        Some(
                            Ok(
                                PlanView {
                                    seed: seed_of(t.market_address, t.owner),
                                    nonce,
                                    invocations: seq![
                                        Invocation {
                                            action: CpiAction::Transfer {
                                                token_program: a.token_program,
                                                source: a.initializer_base_wallet,
                                                destination: a.base_market_wallet,
                                                authority: a.initializer,
                                                amount: ix.base_amount,
                                            },
                                            signed: false,
                                        },
                                        Invocation {
                                            action: CpiAction::Transfer {
                                                token_program: a.token_program,
                                                source: a.initializer_quote_wallet,
                                                destination: a.quote_market_wallet,
                                                authority: a.initializer,
                                                amount: ix.quote_amount,
                                            },
                                            signed: false,
                                        },
                                    ],
                                    trader: TraderState {
                                        base_balance: (t.base_balance + ix.base_amount) as u64,
                                        quote_balance: (t.quote_balance + ix.quote_amount) as u64,
                                        deposited_base_balance: (t.deposited_base_balance
                                            + ix.base_amount) as u64,
                                        deposited_quote_balance: (t.deposited_quote_balance
                                            + ix.quote_amount) as u64,
                                        ..t
                                    },
                                },
                            ),
                        )
                    },
                    _ => None,
                }
            },
        },
    }
}

/// `UpdateTrader`: the initializer must sign and own the trader (else
/// `Unauthorized`); the profit target, stop price and position limit are
/// replaced. Unreadable trader data of a signed request aborts.
pub open spec fn update_trader_outcome(a: TraderOwnerAccounts, ix: UpdateTrader) -> Option<Result<TraderState, TradeBotErrors>> {
    if !a.initializer_is_signer {
        Some(Err(TradeBotErrors::Unauthorized))
    } else {
        match decoded_state(a.trader_data@) {
            None => None,
            Some(t) => if t.owner@ != a.initializer@ {
                Some(Err(TradeBotErrors::Unauthorized))
            } else {
                Some(
                    Ok(
                        TraderState {
                            stopping_price: ix.stopping_price,
                            simultaneous_open_positions: ix.simultaneous_open_positions,
                            min_trade_profit: ix.trade_profit,
                            ..t
                        },
                    ),
                )
            },
        }
    }
}

/// `DecommissionTrader`: the initializer must own the trader and sign (else
/// `Unauthorized`); the trader becomes decommissioned. Unreadable trader data aborts.
pub open spec fn decommission_trader_outcome(a: TraderOwnerAccounts) -> Option<Result<TraderState, TradeBotErrors>> {
    match decoded_state(a.trader_data@) {
        None => None,
        Some(t) => if t.owner@ != a.initializer@ || !a.initializer_is_signer {
            Some(Err(TradeBotErrors::Unauthorized))
        } else {
            Some(Ok(TraderState { status: TraderStatus::Decommissioned, ..t }))
        },
    }
}

impl Processor {
    fn run_register_trader(program_id: &Pubkey, accounts: &RegisterTraderAccounts, ix: &RegisterTrader) -> (r: Option<TradeBotResult<Plan>>)
        ensures
            outcome_of(r) == register_trader_outcome(*program_id, *accounts, *ix),
    {
        let (seed, pda, nonce) = match Self::derive_signer(
            &accounts.serum_market,
            &accounts.initializer,
            program_id,
        ) {
            None => {
                return None;
            },
            Some(found) => found,
        };
        if !keys_equal(&pda, &accounts.trader_signer) {
            return Some(Err(TradeBotErrors::InvalidInstruction));
        }
        let base = match token_account_amount(accounts.initializer_base_wallet_data.as_slice()) {
            None => {
                return None;
            },
            Some(amount) => amount,
        };
        let quote = match token_account_amount(accounts.initializer_quote_wallet_data.as_slice()) {
            None => {
                return None;
            },
            Some(amount) => amount,
        };
        if base < ix.starting_base_balance || quote < ix.starting_quote_balance {
            return Some(Err(TradeBotErrors::InsufficientTokens));
        }
        if !check_token_program(&accounts.token_program) || accounts.trader_data_len
            != TRADER_STATE_LEN {
            return None;
        }
        let mut invocations: Vec<Invocation> = Vec::new();
        invocations.push(
            Invocation {
                action: CpiAction::Transfer {
                    token_program: accounts.token_program,
                    source: accounts.initializer_base_wallet,
                    destination: accounts.base_market_wallet,
                    authority: accounts.initializer,
                    amount: ix.starting_base_balance,
                },
                signed: false,
            },
        );
        invocations.push(
            Invocation {
                action: CpiAction::Transfer {
                    token_program: accounts.token_program,
                    source: accounts.initializer_quote_wallet,
                    destination: accounts.quote_market_wallet,
                    authority: accounts.initializer,
                    amount: ix.starting_quote_balance,
                },
                signed: false,
            },
        );
        invocations.push(
            Invocation {
                action: CpiAction::CreateAccount {
                    from: accounts.trader_signer,
                    to: accounts.serum_open_orders,
                    lamports: ix.serum_open_orders_rent,
                    space: OPEN_ORDERS_SPACE,
                    owner: accounts.serum_program,
                },
                signed: true,
            },
        );
        invocations.push(
            Invocation {
                action: CpiAction::SetAccountOwner {
                    token_program: accounts.token_program,
                    account: accounts.base_market_wallet,
                    new_owner: accounts.trader_signer,
                    current_owner: accounts.initializer,
                },
                signed: false,
            },
        );
        invocations.push(
            Invocation {
                action: CpiAction::SetAccountOwner {
                    token_program: accounts.token_program,
                    account: accounts.quote_market_wallet,
                    new_owner: accounts.trader_signer,
                    current_owner: accounts.initializer,
                },
                signed: false,
            },
        );
        let trader = TraderState {
            market_address: accounts.serum_market,
            base_trader_wallet: accounts.base_market_wallet,
            quote_trader_wallet: accounts.quote_market_wallet,
            serum_open_orders: accounts.serum_open_orders,
            trader_signer: accounts.trader_signer,
            owner: accounts.initializer,
            min_trade_profit: ix.trade_profit,
            stopping_price: ix.stopping_price,
            starting_price_buy: ix.starting_price_buy,
            starting_price_sell: ix.starting_price_sell,
            simultaneous_open_positions: ix.simultaneous_open_positions,
            starting_base_balance: ix.starting_base_balance,
            starting_quote_balance: ix.starting_quote_balance,
            deposited_base_balance: 0,
            deposited_quote_balance: 0,
            withdrawn_base_balance: 0,
            withdrawn_quote_balance: 0,
            starting_value: ix.starting_value,
            base_balance: ix.starting_base_balance,
            quote_balance: ix.starting_quote_balance,
            value: ix.starting_value,
            open_order_pairs: 0,
            total_txs: 0,
            register_date: ix.register_date,
            status: TraderStatus::Registered,
            _padding: [0u64; 17],
        };
        proof {
            assert(invocations@ =~= register_invocations(*accounts, *ix));
        }
        Some(Ok(Plan { seed, nonce, invocations, trader }))
    }

    /// Registers a trader: checks the trader signer and the initializer's
    /// balances, and plans the transfers, the open-orders account creation,
    /// the wallet owner changes and the new trader record.
    pub fn process_register_trader(program_id: &Pubkey, accounts: &RegisterTraderAccounts, ix: &RegisterTrader) -> (r: TradeBotResult<Plan>)
        requires
            register_trader_outcome(*program_id, *accounts, *ix) is Some,
        ensures
            Some(plan_result(r)) == register_trader_outcome(*program_id, *accounts, *ix),
    {
        match Self::run_register_trader(program_id, accounts, ix) {
            Some(r) => r,
            None => Err(TradeBotErrors::UnknownError),
        }
    }

    /// `process_register_trader` where it does not abort; `None` where the
    /// transaction aborts (unreadable wallets, an overflowing seed byte, no bump,
    /// a trader account of the wrong size).
    pub fn try_process_register_trader(program_id: &Pubkey, accounts: &RegisterTraderAccounts, ix: &RegisterTrader) -> (r: Option<TradeBotResult<Plan>>)
        ensures
            outcome_of(r) == register_trader_outcome(*program_id, *accounts, *ix),
    {
        Self::run_register_trader(program_id, accounts, ix)
    }

    fn run_deposit(program_id: &Pubkey, accounts: &DepositAccounts, ix: &Deposit) -> (r: Option<TradeBotResult<Plan>>)
        ensures
            outcome_of(r) == deposit_outcome(*program_id, *accounts, *ix),
    {
        let trader = match TraderState::unpack(accounts.trader_data.as_slice()) {
            Ok(t) => t,
            Err(_) => {
                return None;
            },
        };
        let (seed, pda, nonce) = match Self::derive_signer(
            &trader.market_address,
            &trader.owner,
            program_id,
        ) {
            None => {
                return None;
            },
            Some(found) => found,
        };
        if !keys_equal(&pda, &accounts.trader_signer) {
            return Some(Err(TradeBotErrors::InvalidInstruction));
        }
        let base = match token_account_amount(accounts.initializer_base_wallet_data.as_slice()) {
            None => {
                return None;
            },
            Some(amount) => amount,
        };
        let quote = match token_account_amount(accounts.initializer_quote_wallet_data.as_slice()) {
            None => {
                return None;
            },
            Some(amount) => amount,
        };
        if base < ix.base_amount || quote < ix.quote_amount {
            return Some(Err(TradeBotErrors::InsufficientTokens));
        }
        if !check_token_program(&accounts.token_program) {
            return None;
        }
        if trader.base_balance > u64::MAX - ix.base_amount || trader.quote_balance > u64::MAX
            - ix.quote_amount || trader.deposited_base_balance > u64::MAX - ix.base_amount
            || trader.deposited_quote_balance > u64::MAX - ix.quote_amount {
            return None;
        }
        let mut invocations: Vec<Invocation> = Vec::new();
        invocations.push(
            Invocation {
                action: CpiAction::Transfer {
                    token_program: accounts.token_program,
                    source: accounts.initializer_base_wallet,
                    destination: accounts.base_market_wallet,
                    authority: accounts.initializer,
                    amount: ix.base_amount,
                },
                signed: false,
            },
        );
        invocations.push(
            Invocation {
                action: CpiAction::Transfer {
                    token_program: accounts.token_program,
                    source: accounts.initializer_quote_wallet,
                    destination: accounts.quote_market_wallet,
                    authority: accounts.initializer,
                    amount: ix.quote_amount,
                },
                signed: false,
            },
        );
        let mut updated = trader;
        updated.base_balance = trader.base_balance + ix.base_amount;
        updated.quote_balance = trader.quote_balance + ix.quote_amount;
        updated.deposited_base_balance = trader.deposited_base_balance + ix.base_amount;
        updated.deposited_quote_balance = trader.deposited_quote_balance + ix.quote_amount;
        let ghost spec_outcome = deposit_outcome(*program_id, *accounts, *ix);
        proof {
            assert(spec_outcome matches Some(Ok(p)) && p.invocations =~= invocations@);
        }
        Some(Ok(Plan { seed, nonce, invocations, trader: updated }))
    }

    /// Deposits into a trader: checks the trader signer and the initializer's
    /// balances, and plans the two transfers and the raised balances.
    pub fn process_deposit(program_id: &Pubkey, accounts: &DepositAccounts, ix: &Deposit) -> (r: TradeBotResult<Plan>)
        requires
            deposit_outcome(*program_id, *accounts, *ix) is Some,
        ensures
            Some(plan_result(r)) == deposit_outcome(*program_id, *accounts, *ix),
    {
        match Self::run_deposit(program_id, accounts, ix) {
            Some(r) => r,
            None => Err(TradeBotErrors::UnknownError),
        }
    }

    /// `process_deposit` where it does not abort; `None` where the transaction aborts.
    pub fn try_process_deposit(program_id: &Pubkey, accounts: &DepositAccounts, ix: &Deposit) -> (r: Option<TradeBotResult<Plan>>)
        ensures
            outcome_of(r) == deposit_outcome(*program_id, *accounts, *ix),
    {
        Self::run_deposit(program_id, accounts, ix)
    }

    /// Changes a trader's profit target, stop price and position limit; only
    /// its owner may, and only with a signature.
    pub fn process_update_trader(accounts: &TraderOwnerAccounts, ix: &UpdateTrader) -> (r: TradeBotResult<TraderState>)
        requires
            update_trader_outcome(*accounts, *ix) is Some,
        ensures
            Some(r) == update_trader_outcome(*accounts, *ix),
    {
        if !accounts.initializer_is_signer {
            return Err(TradeBotErrors::Unauthorized);
        }
        let mut trader = match TraderState::unpack(accounts.trader_data.as_slice()) {
            Ok(t) => t,
            Err(_) => {
                return Err(TradeBotErrors::UnknownError);
            },
        };
        if !keys_equal(&trader.owner, &accounts.initializer) {
            return Err(TradeBotErrors::Unauthorized);
        }
        trader.stopping_price = ix.stopping_price;
        trader.simultaneous_open_positions = ix.simultaneous_open_positions;
        trader.min_trade_profit = ix.trade_profit;
        Ok(trader)
    }

    /// Marks a trader as decommissioned; only its owner may, and only with a signature.
    pub fn process_decommission_trader(accounts: &TraderOwnerAccounts, ix: &DecommissionTrader) -> (r: TradeBotResult<TraderState>)
        requires
            decommission_trader_outcome(*accounts) is Some,
        ensures
            Some(r) == decommission_trader_outcome(*accounts),
    {
        let mut trader = match TraderState::unpack(accounts.trader_data.as_slice()) {
            Ok(t) => t,
            Err(_) => {
                return Err(TradeBotErrors::UnknownError);
            },
        };
        if !keys_equal(&trader.owner, &accounts.initializer) || !accounts.initializer_is_signer {
            return Err(TradeBotErrors::Unauthorized);
        }
        trader.status = TraderStatus::Decommissioned;
        Ok(trader)
    }
}

} // verus!
