# trade_bot

A Solana program that runs a simple market-making bot on a Serum order book:
a trader registers with starting balances, deposits more, places a bid below
and an ask above the market midpoint, settles its funds, and is finally
decommissioned and cleaned up.

The decisions of every instruction are a verified library (Verus):

- `wire` — little-endian words and keys, the building blocks of the layouts.
- `instruction` — the seven instructions and their fixed-size packed forms.
- `state` — the trader record and its 473-byte packed form.
- `book` — reading the resting orders of a Serum slab.
- `chain` — the few calls into spl-token and solana-program that the logic makes.
- `processor` — decoding instruction data, the trader signer's seed, and the
  plan an accepted instruction yields (the calls to make and the record to store).
- `trader` — registering, depositing, updating and decommissioning a trader.
- `market` — trading, settling and cleaning up.
- `laws` — properties that span instructions.

Each processing function states, for every input, whether it is accepted,
which error it reports, or that the transaction aborts, and exactly what it
plans. `app/` reads the accounts, performs the planned cross-program calls,
computes the floating-point fees, and carries the Borsh and thiserror forms of
the library's types.
