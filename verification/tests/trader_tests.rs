use solana_program::program_option::COption;
use solana_program::program_pack::Pack;
use solana_program::pubkey::Pubkey as SolKey;
use spl_token::state::{Account, AccountState};
use trade_bot::error::TradeBotErrors;
use trade_bot::instruction::{DecommissionTrader, Deposit, RegisterTrader, UpdateTrader};
use trade_bot::processor::{CpiAction, Invocation, Processor};
use trade_bot::state::{TraderState, TraderStatus};
use trade_bot::trader::{DepositAccounts, RegisterTraderAccounts, TraderOwnerAccounts};

const PROGRAM: [u8; 32] = [9; 32];
const INITIALIZER: [u8; 32] = [1; 32];
const MARKET: [u8; 32] = [2; 32];

fn token_program() -> [u8; 32] {
    spl_token::id().to_bytes()
}

fn token_account(amount: u64) -> Vec<u8> {
    let account = Account {
        mint: SolKey::new_from_array([40; 32]),
        owner: SolKey::new_from_array([41; 32]),
        amount,
        delegate: COption::None,
        state: AccountState::Initialized,
        is_native: COption::None,
        delegated_amount: 0,
        close_authority: COption::None,
    };
    let mut data = vec![0u8; Account::LEN];
    Account::pack(account, &mut data).unwrap();
    data
}

fn derived_signer(owner: [u8; 32], market: [u8; 32]) -> ([u8; 32], u8, Vec<u8>) {
    let seed: Vec<u8> = owner.iter().zip(market.iter()).map(|(a, b)| a + b).collect();
    let (key, bump) = SolKey::find_program_address(&[&seed], &SolKey::new_from_array(PROGRAM));
    (key.to_bytes(), bump, seed)
}

fn register_accounts(base: u64, quote: u64) -> RegisterTraderAccounts {
    let (signer, _, _) = derived_signer(MARKET, INITIALIZER);
    RegisterTraderAccounts {
        initializer: INITIALIZER,
        serum_market: MARKET,
        base_market_wallet: [11; 32],
        quote_market_wallet: [12; 32],
        trader_signer: signer,
        serum_open_orders: [13; 32],
        initializer_base_wallet: [14; 32],
        initializer_quote_wallet: [15; 32],
        token_program: token_program(),
        serum_program: [16; 32],
        initializer_base_wallet_data: token_account(base),
        initializer_quote_wallet_data: token_account(quote),
        trader_data_len: 473,
    }
}

fn register_ix() -> RegisterTrader {
    RegisterTrader {
        trade_profit: 100,
        stopping_price: 5,
        starting_price_buy: 40,
        starting_price_sell: 60,
        simultaneous_open_positions: 4,
        starting_base_balance: 1_000,
        starting_quote_balance: 2_000,
        starting_value: 50_000,
        serum_open_orders_rent: 777,
        register_date: 1_650_000_000,
        padding: [0; 16],
    }
}

#[test]
fn seed_is_bytewise_sum() {
    let seed = Processor::calculate_seed_for_owner_and_market(&[1; 32], &[2; 32]);
    assert_eq!(seed, vec![3u8; 32]);
    let mut a = [0u8; 32];
    a[0] = 200;
    a[31] = 5;
    let mut b = [0u8; 32];
    b[0] = 55;
    b[31] = 7;
    let seed = Processor::calculate_seed_for_owner_and_market(&a, &b);
    assert_eq!(seed[0], 255);
    assert_eq!(seed[31], 12);
    assert_eq!(seed[1], 0);
}

#[test]
fn register_trader_plans_transfers_and_record() {
    let accounts = register_accounts(5_000, 5_000);
    let plan = Processor::try_process_register_trader(&PROGRAM, &accounts, &register_ix())
        .unwrap()
        .unwrap();
    let (signer, bump, seed) = derived_signer(MARKET, INITIALIZER);
    assert_eq!(plan.seed, seed);
    assert_eq!(plan.nonce, bump);
    assert_eq!(plan.invocations.len(), 5);
    assert_eq!(
        plan.invocations[0],
        Invocation {
            action: CpiAction::Transfer {
                token_program: token_program(),
                source: [14; 32],
                destination: [11; 32],
                authority: INITIALIZER,
                amount: 1_000,
            },
            signed: false,
        }
    );
    assert_eq!(
        plan.invocations[2],
        Invocation {
            action: CpiAction::CreateAccount {
                from: signer,
                to: [13; 32],
                lamports: 777,
                space: 3228,
                owner: [16; 32],
            },
            signed: true,
        }
    );
    assert_eq!(
        plan.invocations[4].action,
        CpiAction::SetAccountOwner {
            token_program: token_program(),
            account: [12; 32],
            new_owner: signer,
            current_owner: INITIALIZER,
        }
    );
    let t = plan.trader;
    assert_eq!(t.market_address, MARKET);
    assert_eq!(t.owner, INITIALIZER);
    assert_eq!(t.trader_signer, signer);
    assert_eq!(t.base_balance, 1_000);
    assert_eq!(t.quote_balance, 2_000);
    assert_eq!(t.value, 50_000);
    assert_eq!(t.status, TraderStatus::Registered);
    assert_eq!(t._padding, [0; 17]);
}

#[test]
fn register_trader_refuses_wrong_signer() {
    let mut accounts = register_accounts(5_000, 5_000);
    accounts.trader_signer = [77; 32];
    let r = Processor::try_process_register_trader(&PROGRAM, &accounts, &register_ix()).unwrap();
    assert_eq!(r.unwrap_err(), TradeBotErrors::InvalidInstruction);
}

#[test]
fn register_trader_needs_starting_balances() {
    let accounts = register_accounts(999, 5_000);
    let r = Processor::process_register_trader(&PROGRAM, &accounts, &register_ix());
    assert_eq!(r.unwrap_err(), TradeBotErrors::InsufficientTokens);
    let accounts = register_accounts(1_000, 1_999);
    let r = Processor::process_register_trader(&PROGRAM, &accounts, &register_ix());
    assert_eq!(r.unwrap_err(), TradeBotErrors::InsufficientTokens);
}

#[test]
fn register_trader_aborts_on_unreadable_wallet() {
    let mut accounts = register_accounts(5_000, 5_000);
    accounts.initializer_base_wallet_data = vec![0u8; 165];
    assert!(Processor::try_process_register_trader(&PROGRAM, &accounts, &register_ix()).is_none());
    let mut accounts = register_accounts(5_000, 5_000);
    accounts.token_program = [3; 32];
    assert!(Processor::try_process_register_trader(&PROGRAM, &accounts, &register_ix()).is_none());
}

#[test]
fn register_trader_aborts_on_overflowing_seed() {
    let mut accounts = register_accounts(5_000, 5_000);
    accounts.initializer = [200; 32];
    accounts.serum_market = [100; 32];
    assert!(Processor::try_process_register_trader(&PROGRAM, &accounts, &register_ix()).is_none());
}

fn registered_state() -> TraderState {
    let accounts = register_accounts(5_000, 5_000);
    Processor::process_register_trader(&PROGRAM, &accounts, &register_ix()).unwrap().trader
}

fn deposit_accounts(base: u64, quote: u64) -> DepositAccounts {
    let t = registered_state();
    DepositAccounts {
        initializer: INITIALIZER,
        base_market_wallet: [11; 32],
        quote_market_wallet: [12; 32],
        trader_signer: t.trader_signer,
        initializer_base_wallet: [14; 32],
        initializer_quote_wallet: [15; 32],
        token_program: token_program(),
        trader_data: t.to_bytes(),
        initializer_base_wallet_data: token_account(base),
        initializer_quote_wallet_data: token_account(quote),
    }
}

#[test]
fn deposit_raises_balances() {
    let accounts = deposit_accounts(300, 400);
    let ix = Deposit { base_amount: 300, quote_amount: 400, _padding: [0; 7] };
    let plan = Processor::try_process_deposit(&PROGRAM, &accounts, &ix).unwrap().unwrap();
    assert_eq!(plan.trader.base_balance, 1_300);
    assert_eq!(plan.trader.quote_balance, 2_400);
    assert_eq!(plan.trader.deposited_base_balance, 300);
    assert_eq!(plan.trader.deposited_quote_balance, 400);
    assert_eq!(plan.invocations.len(), 2);
    assert_eq!(
        plan.invocations[1].action,
        CpiAction::Transfer {
            token_program: token_program(),
            source: [15; 32],
            destination: [12; 32],
            authority: INITIALIZER,
            amount: 400,
        }
    );
    let before = registered_state();
    assert_eq!(
        plan.trader.base_balance - plan.trader.deposited_base_balance,
        before.base_balance - before.deposited_base_balance
    );
}

#[test]
fn deposit_checks_signer_and_funds() {
    let ix = Deposit { base_amount: 300, quote_amount: 400, _padding: [0; 7] };
    let mut accounts = deposit_accounts(300, 400);
    accounts.trader_signer = [1; 32];
    assert_eq!(
        Processor::process_deposit(&PROGRAM, &accounts, &ix).unwrap_err(),
        TradeBotErrors::InvalidInstruction
    );
    let accounts = deposit_accounts(299, 400);
    assert_eq!(
        Processor::process_deposit(&PROGRAM, &accounts, &ix).unwrap_err(),
        TradeBotErrors::InsufficientTokens
    );
}

#[test]
fn deposit_aborts_on_overflow() {
    let accounts = deposit_accounts(u64::MAX, 400);
    let ix = Deposit { base_amount: u64::MAX, quote_amount: 0, _padding: [0; 7] };
    assert!(Processor::try_process_deposit(&PROGRAM, &accounts, &ix).is_none());
}

fn owner_accounts(initializer: [u8; 32], signed: bool) -> TraderOwnerAccounts {
    TraderOwnerAccounts {
        initializer,
        initializer_is_signer: signed,
        trader_data: registered_state().to_bytes(),
    }
}

#[test]
fn update_trader_replaces_three_fields() {
    let ix = UpdateTrader {
        trade_profit: 7,
        stopping_price: 8,
        simultaneous_open_positions: 9,
        _padding: [0; 65],
    };
    let t = Processor::process_update_trader(&owner_accounts(INITIALIZER, true), &ix).unwrap();
    let mut expected = registered_state();
    expected.min_trade_profit = 7;
    expected.stopping_price = 8;
    expected.simultaneous_open_positions = 9;
    assert_eq!(t, expected);
}

#[test]
fn update_trader_needs_owner_signature() {
    let ix = UpdateTrader {
        trade_profit: 7,
        stopping_price: 8,
        simultaneous_open_positions: 9,
        _padding: [0; 65],
    };
    assert_eq!(
        Processor::process_update_trader(&owner_accounts(INITIALIZER, false), &ix).unwrap_err(),
        TradeBotErrors::Unauthorized
    );
    assert_eq!(
        Processor::process_update_trader(&owner_accounts([3; 32], true), &ix).unwrap_err(),
        TradeBotErrors::Unauthorized
    );
    let unsigned_garbage = TraderOwnerAccounts {
        initializer: INITIALIZER,
        initializer_is_signer: false,
        trader_data: vec![],
    };
    assert_eq!(
        Processor::process_update_trader(&unsigned_garbage, &ix).unwrap_err(),
        TradeBotErrors::Unauthorized
    );
}

#[test]
fn decommission_trader() {
    let ix = DecommissionTrader { _padding: [0; 7] };
    let t = Processor::process_decommission_trader(&owner_accounts(INITIALIZER, true), &ix).unwrap();
    assert_eq!(t.status, TraderStatus::Decommissioned);
    let mut expected = registered_state();
    expected.status = TraderStatus::Decommissioned;
    assert_eq!(t, expected);
    assert_eq!(
        Processor::process_decommission_trader(&owner_accounts(INITIALIZER, false), &ix).unwrap_err(),
        TradeBotErrors::Unauthorized
    );
    assert_eq!(
        Processor::process_decommission_trader(&owner_accounts([8; 32], true), &ix).unwrap_err(),
        TradeBotErrors::Unauthorized
    );
}

#[test]
fn register_trader_aborts_on_wrong_sized_trader_account() {
    for len in [0usize, 472, 474] {
        let mut accounts = register_accounts(5_000, 5_000);
        accounts.trader_data_len = len;
        assert!(Processor::try_process_register_trader(&PROGRAM, &accounts, &register_ix()).is_none());
    }
    // a refusal still comes first
    let mut accounts = register_accounts(5_000, 5_000);
    accounts.trader_data_len = 0;
    accounts.trader_signer = [3; 32];
    assert_eq!(
        Processor::try_process_register_trader(&PROGRAM, &accounts, &register_ix()).unwrap().unwrap_err(),
        TradeBotErrors::InvalidInstruction
    );
}
