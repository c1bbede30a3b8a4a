use vstd::prelude::*;
use crate::book::Side;
use crate::chain::{program_address, token_account_amount, token_account_amount_of, try_find_program_address};
use crate::error::{TradeBotErrors, TradeBotResult};
use crate::instruction::{
    CleanUp, DecommissionTrader, Deposit, RegisterTrader, Settle, Trade, TradeBotInstruction,
    UpdateTrader,
};
use crate::state::{decoded_state, TraderState, TraderStatus};
use crate::wire::{keys_equal, Pubkey};

verus! {

/// The trade bot's instruction processor.
pub struct Processor {}

/// A decoded instruction, told apart by the length of its data.
#[derive(Debug, PartialEq, Eq)]
pub enum TradeBotCommand {
    Trade(Trade),
    RegisterTrader(RegisterTrader),
    DecommissionTrader(DecommissionTrader),
    Deposit(Deposit),
    Settle(Settle),
    UpdateTrader(UpdateTrader),
    CleanUp(CleanUp),
}

/// The data lengths of the seven instructions.
pub open spec fn command_length(len: nat) -> bool {
    len == 128 || len == 96 || len == 56 || len == 72 || len == 80 || len == 89 || len == 160
}

/// The packed form of a decoded instruction.
pub open spec fn command_packed(c: TradeBotCommand) -> Seq<u8> {
    match c {
        TradeBotCommand::Trade(ix) => ix.packed(),
        TradeBotCommand::RegisterTrader(ix) => ix.packed(),
        TradeBotCommand::DecommissionTrader(ix) => ix.packed(),
        TradeBotCommand::Deposit(ix) => ix.packed(),
        TradeBotCommand::Settle(ix) => ix.packed(),
        TradeBotCommand::UpdateTrader(ix) => ix.packed(),
        TradeBotCommand::CleanUp(ix) => ix.packed(),
    }
}

/// The packed form of each instruction has a length that `process` accepts,
/// and different instructions have different packed forms; so `process`
/// decodes the packed form of an instruction back to that instruction.
pub proof fn lemma_command_roundtrip(c: TradeBotCommand, other: TradeBotCommand)
    ensures
        command_length(command_packed(c).len()),
        command_packed(other) == command_packed(c) ==> other == c,
{
    match c {
        TradeBotCommand::Trade(ix) => ix.lemma_packed_len(),
        TradeBotCommand::RegisterTrader(ix) => ix.lemma_packed_len(),
        TradeBotCommand::DecommissionTrader(ix) => ix.lemma_packed_len(),
        TradeBotCommand::Deposit(ix) => ix.lemma_packed_len(),
        TradeBotCommand::Settle(ix) => ix.lemma_packed_len(),
        TradeBotCommand::UpdateTrader(ix) => ix.lemma_packed_len(),
        TradeBotCommand::CleanUp(ix) => ix.lemma_packed_len(),
    }
    match other {
        TradeBotCommand::Trade(ix) => ix.lemma_packed_len(),
        TradeBotCommand::RegisterTrader(ix) => ix.lemma_packed_len(),
        TradeBotCommand::DecommissionTrader(ix) => ix.lemma_packed_len(),
        TradeBotCommand::Deposit(ix) => ix.lemma_packed_len(),
        TradeBotCommand::Settle(ix) => ix.lemma_packed_len(),
        TradeBotCommand::UpdateTrader(ix) => ix.lemma_packed_len(),
        TradeBotCommand::CleanUp(ix) => ix.lemma_packed_len(),
    }
    if command_packed(other) == command_packed(c) {
        match (c, other) {
            (TradeBotCommand::Trade(x), TradeBotCommand::Trade(y)) => y.lemma_packed_injective(&x),
            (TradeBotCommand::RegisterTrader(x), TradeBotCommand::RegisterTrader(y)) => y.lemma_packed_injective(&x),
            (TradeBotCommand::DecommissionTrader(x), TradeBotCommand::DecommissionTrader(y)) => y.lemma_packed_injective(&x),
            (TradeBotCommand::Deposit(x), TradeBotCommand::Deposit(y)) => y.lemma_packed_injective(&x),
            (TradeBotCommand::Settle(x), TradeBotCommand::Settle(y)) => y.lemma_packed_injective(&x),
            (TradeBotCommand::UpdateTrader(x), TradeBotCommand::UpdateTrader(y)) => y.lemma_packed_injective(&x),
            (TradeBotCommand::CleanUp(x), TradeBotCommand::CleanUp(y)) => y.lemma_packed_injective(&x),
            _ => {},
        }
    }
}

/// An account passed to a cross-program call, with its signer and writable flags.
#[derive(Debug, Clone, Copy, PartialEq, Eq)]
pub struct AccountRef {
    pub key: Pubkey,
    pub is_signer: bool,
    pub is_writable: bool,
}

/// A writable account that does not sign.
pub open spec fn writable(key: Pubkey) -> AccountRef {
    AccountRef { key, is_signer: false, is_writable: true }
}

/// A read-only account, signing or not.
pub open spec fn readonly(key: Pubkey, is_signer: bool) -> AccountRef {
    AccountRef { key, is_signer, is_writable: false }
}

/// What the processor asks the runtime to do in a cross-program call.
#[derive(Debug, Clone, Copy, PartialEq, Eq)]
#[allow(inconsistent_fields)]
pub enum CpiAction {
    /// An SPL token transfer of `amount` from `source` to `destination`.
    Transfer {
        token_program: Pubkey,
        source: Pubkey,
        destination: Pubkey,
        authority: Pubkey,
        amount: u64,
    },
    /// A system-program account creation funded by `from`.
    CreateAccount { from: Pubkey, to: Pubkey, lamports: u64, space: u64, owner: Pubkey },
    /// An SPL token change of `account`'s owner to `new_owner`.
    SetAccountOwner {
        token_program: Pubkey,
        account: Pubkey,
        new_owner: Pubkey,
        current_owner: Pubkey,
    },
    /// An SPL token account closing; the lamports go to `destination`.
    CloseAccount { token_program: Pubkey, account: Pubkey, destination: Pubkey, owner: Pubkey },
    /// A serum `CancelOrderV2` call to `program` with these accounts: market,
    /// bids, asks, open orders, signer, event queue.
    CancelOrder { program: Pubkey, side: Side, order_id: u128, accounts: [AccountRef; 6] },
    /// A serum `NewOrderV3` call to `program`: a limit order, aborting on a
    /// self trade, with no limit on matching; its accounts are market, open
    /// orders, request queue, event queue, bids, asks, paying wallet, signer,
    /// coin vault, pc vault, token program, rent sysvar.
    NewOrder {
        program: Pubkey,
        side: Side,
        limit_price: u64,
        max_coin_qty: u64,
        max_native_pc_qty: u64,
        client_order_id: u64,
        accounts: [AccountRef; 12],
    },
    /// A serum `SettleFunds` call to `program` with these accounts: market,
    /// open orders, signer, coin vault, pc vault, base wallet, quote wallet,
    /// vault signer, token program.
    SettleFunds { program: Pubkey, accounts: [AccountRef; 9] },
}

/// One cross-program call; `signed` calls are signed with the trader signer's seed.
#[derive(Debug, Clone, Copy, PartialEq, Eq)]
pub struct Invocation {
    pub action: CpiAction,
    pub signed: bool,
}

/// What an instruction does once it is accepted: the calls to make, in order,
/// and the trader record to store. `seed` and `nonce` sign the signed calls.
#[derive(Debug)]
pub struct Plan {
    pub seed: Vec<u8>,
    pub nonce: u8,
    pub invocations: Vec<Invocation>,
    pub trader: TraderState,
}

pub struct PlanView {
    pub seed: Seq<u8>,
    pub nonce: u8,
    pub invocations: Seq<Invocation>,
    pub trader: TraderState,
}

impl View for Plan {
    type V = PlanView;

    open spec fn view(&self) -> PlanView {
        PlanView {
            seed: self.seed@,
            nonce: self.nonce,
            invocations: self.invocations@,
            trader: self.trader,
        }
    }
}

/// The outcome of an instruction: `None` where the transaction aborts,
/// otherwise its result.
pub type Outcome = Option<Result<PlanView, TradeBotErrors>>;

pub open spec fn plan_result(r: TradeBotResult<Plan>) -> Result<PlanView, TradeBotErrors> {
    match r {
        Ok(p) => Ok(p@),
        Err(e) => Err(e),
    }
}

pub open spec fn outcome_of(r: Option<TradeBotResult<Plan>>) -> Outcome {
    match r {
        Some(x) => Some(plan_result(x)),
        None => None,
    }
}

/// No byte of the seed overflows: the bytes are added with overflow checks,
/// so a pair of bytes that sums above 255 aborts the transaction.
pub open spec fn seed_fits(owner: Pubkey, market: Pubkey) -> bool {
    forall|i: int| 0 <= i < 32 ==> #[trigger] owner@[i] + market@[i] <= 255
}

/// The seed of a trader signer: the byte-wise sum of two keys.
pub open spec fn seed_of(owner: Pubkey, market: Pubkey) -> Seq<u8> {
    Seq::new(32, |i: int| (owner@[i] + market@[i]) as u8)
}

/// The trader signer address and bump derived from two keys, or `None` where
/// the transaction aborts (a seed byte overflows, or no bump is found).
pub open spec fn signer_of(owner: Pubkey, market: Pubkey, program_id: Pubkey) -> Option<(Seq<u8>, u8)> {
    if seed_fits(owner, market) {
        program_address(seed_of(owner, market), program_id@)
    } else {
        None
    }
}

impl Processor {
    /// Byte-wise sum, or `None` where a byte overflows.
    pub(crate) fn checked_seed(owner: &Pubkey, market: &Pubkey) -> (r: Option<Vec<u8>>)
        ensures
            r is None <==> !seed_fits(*owner, *market),
            r matches Some(seed) ==> seed@ == seed_of(*owner, *market),
    {
        let mut seed: Vec<u8> = Vec::with_capacity(32);
        let mut i: usize = 0;
        while i < 32
            invariant
                i <= 32,
                seed@.len() == i,
                forall|j: int| 0 <= j < i ==> owner@[j] + market@[j] <= 255,
                forall|j: int| 0 <= j < i ==> seed@[j] == (owner@[j] + market@[j]) as u8,
            decreases 32 - i,
        {
            let a = owner[i];
            let b = market[i];
            if b > 255 - a {
                assert(!seed_fits(*owner, *market)) by {
                    assert(owner@[i as int] + market@[i as int] > 255);
                }
                return None;
            }
            seed.push(a + b);
            i = i + 1;
        }
        assert(seed@ =~= seed_of(*owner, *market));
        Some(seed)
    }

    /// The seed of the trader signer: the byte-wise sum of the two keys.
    pub fn calculate_seed_for_owner_and_market(owner: &Pubkey, market: &Pubkey) -> (seed: Vec<u8>)
        requires
            seed_fits(*owner, *market),
        ensures
            seed@ == seed_of(*owner, *market),
    {
        match Self::checked_seed(owner, market) {
            Some(seed) => seed,
            None => Vec::new(),
        }
    }

    /// Seed, address and bump of the trader signer, or `None` where the transaction aborts.
    pub(crate) fn derive_signer(owner: &Pubkey, market: &Pubkey, program_id: &Pubkey) -> (r: Option<(Vec<u8>, Pubkey, u8)>)
        ensures
            r is None <==> signer_of(*owner, *market, *program_id) is None,
            r matches Some((seed, key, bump)) ==> seed@ == seed_of(*owner, *market)
                && signer_of(*owner, *market, *program_id) == Some((key@, bump)),
    {
        match Self::checked_seed(owner, market) {
            None => None,
            Some(seed) => match try_find_program_address(seed.as_slice(), program_id) {
                None => None,
                Some((key, bump)) => Some((seed, key, bump)),
            },
        }
    }

    /// Decodes instruction data. Each instruction has its own length, and the
    /// length alone picks the instruction; any other length is `UnknownInstruction`.
    pub fn process(data: &[u8]) -> (r: TradeBotResult<TradeBotCommand>)
        ensures
            r is Ok <==> command_length(data@.len()),
            r matches Ok(c) ==> command_packed(c) == data@,
            r matches Err(e) ==> e == TradeBotErrors::UnknownInstruction,
    {
        match data.len() {
            128 => match Trade::unpack(data) {
                Ok(ix) => Ok(TradeBotCommand::Trade(*ix)),
                Err(e) => Err(e),
            },
            96 => match RegisterTrader::unpack(data) {
                Ok(ix) => Ok(TradeBotCommand::RegisterTrader(*ix)),
                Err(e) => Err(e),
            },
            56 => match DecommissionTrader::unpack(data) {
                Ok(ix) => Ok(TradeBotCommand::DecommissionTrader(*ix)),
                Err(e) => Err(e),
            },
            72 => match Deposit::unpack(data) {
                Ok(ix) => Ok(TradeBotCommand::Deposit(*ix)),
                Err(e) => Err(e),
            },
            80 => match Settle::unpack(data) {
                Ok(ix) => Ok(TradeBotCommand::Settle(*ix)),
                Err(e) => Err(e),
            },
            89 => match UpdateTrader::unpack(data) {
                Ok(ix) => Ok(TradeBotCommand::UpdateTrader(*ix)),
                Err(e) => Err(e),
            },
            160 => match CleanUp::unpack(data) {
                Ok(ix) => Ok(TradeBotCommand::CleanUp(*ix)),
                Err(e) => Err(e),
            },
            _ => Err(TradeBotErrors::UnknownInstruction),
        }
    }
}

} // verus!
