use borsh::BorshSerialize;
use trade_bot::error::TradeBotErrors;
use trade_bot::instruction::{
    CleanUp, DecommissionTrader, Deposit, RegisterTrader, Settle, Trade, TradeBotInstruction,
    UpdateTrader,
};
use trade_bot::processor::{Processor, TradeBotCommand};

fn le(v: u64) -> Vec<u8> {
    v.to_le_bytes().to_vec()
}

fn sample_register() -> RegisterTrader {
    RegisterTrader {
        trade_profit: 1,
        stopping_price: 2,
        starting_price_buy: 3,
        starting_price_sell: 4,
        simultaneous_open_positions: 5,
        starting_base_balance: 6,
        starting_quote_balance: 7,
        starting_value: 8,
        serum_open_orders_rent: 9,
        register_date: 0x0102030405060708,
        padding: [0xAA; 16],
    }
}

#[test]
fn register_trader_packs_fields_little_endian_then_padding() {
    let bytes = RegisterTrader::pack(sample_register()).unwrap();
    let mut expected = Vec::new();
    for v in [1u64, 2, 3, 4, 5, 6, 7, 8, 9, 0x0102030405060708] {
        expected.extend(le(v));
    }
    expected.extend([0xAA; 16]);
    assert_eq!(bytes.len(), 96);
    assert_eq!(bytes, expected);
}

#[test]
fn register_trader_roundtrip() {
    let bytes = RegisterTrader::pack(sample_register()).unwrap();
    let back = RegisterTrader::unpack(&bytes).unwrap();
    assert_eq!(*back, sample_register());
}

#[test]
fn unpack_rejects_wrong_length() {
    let bytes = vec![0u8; 95];
    assert_eq!(RegisterTrader::unpack(&bytes).unwrap_err(), TradeBotErrors::InvalidInstruction);
    let bytes = vec![0u8; 97];
    assert_eq!(RegisterTrader::unpack(&bytes).unwrap_err(), TradeBotErrors::InvalidInstruction);
    assert_eq!(Trade::unpack(&[]).unwrap_err(), TradeBotErrors::InvalidInstruction);
}

#[test]
fn update_trader_layout() {
    let ix = UpdateTrader {
        trade_profit: 10,
        stopping_price: 20,
        simultaneous_open_positions: 30,
        _padding: [7; 65],
    };
    let bytes = UpdateTrader::pack(ix).unwrap();
    assert_eq!(bytes.len(), 89);
    assert_eq!(&bytes[0..8], &le(10)[..]);
    assert_eq!(&bytes[8..16], &le(20)[..]);
    assert_eq!(&bytes[16..24], &le(30)[..]);
    assert!(bytes[24..].iter().all(|b| *b == 7));
    let back = UpdateTrader::unpack(&bytes).unwrap();
    assert_eq!(back.trade_profit, 10);
    assert_eq!(back.stopping_price, 20);
    assert_eq!(back.simultaneous_open_positions, 30);
}

#[test]
fn deposit_layout_and_roundtrip() {
    let ix = Deposit { base_amount: 500, quote_amount: 0xFFFF_FFFF_FFFF_FFFF, _padding: [3; 7] };
    let bytes = Deposit::pack(ix).unwrap();
    assert_eq!(bytes.len(), 72);
    assert_eq!(&bytes[0..8], &le(500)[..]);
    assert_eq!(&bytes[8..16], &[0xFF; 8][..]);
    assert_eq!(&bytes[16..24], &le(3)[..]);
    let back = Deposit::unpack(&bytes).unwrap();
    assert_eq!(*back, Deposit { base_amount: 500, quote_amount: u64::MAX, _padding: [3; 7] });
}

#[test]
fn padding_only_instructions_roundtrip() {
    let d = DecommissionTrader { _padding: [1, 2, 3, 4, 5, 6, 7] };
    let bytes = DecommissionTrader::pack(DecommissionTrader { _padding: [1, 2, 3, 4, 5, 6, 7] }).unwrap();
    assert_eq!(bytes.len(), 56);
    assert_eq!(*DecommissionTrader::unpack(&bytes).unwrap(), d);

    let mut pad = [0u8; 128];
    for (i, b) in pad.iter_mut().enumerate() {
        *b = i as u8;
    }
    let bytes = Trade::pack(Trade { _padding: pad }).unwrap();
    assert_eq!(bytes, pad.to_vec());
    assert_eq!(Trade::unpack(&bytes).unwrap()._padding, pad);

    let bytes = Settle::pack(Settle { _padding: [9; 10] }).unwrap();
    assert_eq!(bytes.len(), 80);
    assert_eq!(Settle::unpack(&bytes).unwrap()._padding, [9; 10]);

    let bytes = CleanUp::pack(CleanUp { _padding: [u64::MAX; 20] }).unwrap();
    assert_eq!(bytes, vec![0xFF; 160]);
    assert_eq!(CleanUp::unpack(&bytes).unwrap()._padding, [u64::MAX; 20]);
}

#[test]
fn process_decodes_by_length() {
    let cases: Vec<(usize, &str)> = vec![
        (128, "trade"),
        (96, "register"),
        (56, "decommission"),
        (72, "deposit"),
        (80, "settle"),
        (89, "update"),
        (160, "cleanup"),
    ];
    for (len, name) in cases {
        let data = vec![1u8; len];
        let cmd = Processor::process(&data).unwrap();
        let got = match cmd {
            TradeBotCommand::Trade(_) => "trade",
            TradeBotCommand::RegisterTrader(_) => "register",
            TradeBotCommand::DecommissionTrader(_) => "decommission",
            TradeBotCommand::Deposit(_) => "deposit",
            TradeBotCommand::Settle(_) => "settle",
            TradeBotCommand::UpdateTrader(_) => "update",
            TradeBotCommand::CleanUp(_) => "cleanup",
        };
        assert_eq!(got, name);
    }
}

#[test]
fn process_gives_back_the_packed_instruction() {
    let bytes = RegisterTrader::pack(sample_register()).unwrap();
    match Processor::process(&bytes).unwrap() {
        TradeBotCommand::RegisterTrader(ix) => assert_eq!(ix, sample_register()),
        other => panic!("unexpected {:?}", other),
    }
}

#[test]
fn process_rejects_unknown_lengths() {
    for len in [0usize, 1, 55, 57, 95, 100, 161, 473] {
        let data = vec![0u8; len];
        assert_eq!(Processor::process(&data).unwrap_err(), TradeBotErrors::UnknownInstruction);
    }
}

#[test]
fn packed_forms_match_borsh() {
    let r = sample_register();
    let expected = (
        r.trade_profit,
        r.stopping_price,
        r.starting_price_buy,
        r.starting_price_sell,
        r.simultaneous_open_positions,
        r.starting_base_balance,
        r.starting_quote_balance,
        r.starting_value,
        r.serum_open_orders_rent,
        r.register_date,
        r.padding,
    )
        .try_to_vec()
        .unwrap();
    assert_eq!(RegisterTrader::pack(r).unwrap(), expected);

    let expected = (u64::MAX, 2u64, 3u64, [0x5Au8; 65]).try_to_vec().unwrap();
    let ix = UpdateTrader {
        trade_profit: u64::MAX,
        stopping_price: 2,
        simultaneous_open_positions: 3,
        _padding: [0x5A; 65],
    };
    assert_eq!(UpdateTrader::pack(ix).unwrap(), expected);

    let expected = (41u64, 42u64, [1u64, 2, 3, 4, 5, 6, 7]).try_to_vec().unwrap();
    let ix = Deposit { base_amount: 41, quote_amount: 42, _padding: [1, 2, 3, 4, 5, 6, 7] };
    assert_eq!(Deposit::pack(ix).unwrap(), expected);

    let pad7 = [0x0102_0304_0506_0708u64; 7];
    assert_eq!(DecommissionTrader::pack(DecommissionTrader { _padding: pad7 }).unwrap(), pad7.try_to_vec().unwrap());
    let pad128 = [0xC3u8; 128];
    assert_eq!(Trade::pack(Trade { _padding: pad128 }).unwrap(), pad128.try_to_vec().unwrap());
    let pad10 = [0xDEAD_BEEFu64; 10];
    assert_eq!(Settle::pack(Settle { _padding: pad10 }).unwrap(), pad10.try_to_vec().unwrap());
    let pad20 = [77u64; 20];
    assert_eq!(CleanUp::pack(CleanUp { _padding: pad20 }).unwrap(), pad20.try_to_vec().unwrap());
}
