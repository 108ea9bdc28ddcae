# Martian Field, verified

A leveraged yield farm: users provide a primary asset and a secondary asset to an AMM pair,
borrow the secondary asset from a lender to take leverage, and bond the pair's liquidity
tokens at a staking contract (a "generator") whose rewards the vault reinvests. Each position
is tracked in bond units and debt units; a position whose loan-to-value ratio exceeds a limit
can be liquidated.

The library in `src/` decides every step and is verified with Verus:

- `math`, `assets`: fixed-point and ratio arithmetic; asset lists (`cw_asset::AssetList`,
  specified as a sequence of entries).
- `state`, `execute`, `callbacks`, `replies`, `health`, `queries`, `messages`: the vault —
  its requests (update a position, harvest, liquidate), the steps it sends itself, what it
  does with the pair's replies, position health, queries, and the text of its refusals.
- `events`: reading amounts and assets from the attributes the pair reports.
- `closure`: winding the vault down, refunding users by bond units.
- `slots`: the farm whose positions hold three fixed slots (long, short, shares) and pay the
  chain's tax on native transfers.
- `strategy`: the farm of a CW20 asset against UST, with its tax, swap and liquidation rules.
- `mocks`: the stand-ins for the staking contract, generator, lender, oracle and staking hub.
- `laws`: properties that hold across steps.

`app/` holds the CosmWasm entry points, storage and messages to the other contracts around
the library, for the vault, its closure and the UST farm; `tests/` runs the library on concrete values.
