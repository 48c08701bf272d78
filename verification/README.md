# basket_algos

Verified core of a Solana index-basket engine, written in Verus.

`src/` holds the logic, each function with a contract proved by Verus:

- fee configuration of index tokens (`fee_config`, `infinix_program`), account
  checks and rent-exemption plans (`account_util`), byte encodings (`bytes`);
- algorithm registries and factories (`name_table`, `registry`,
  `account_models`) and operation metrics (`metrics`);
- execution strategies (`strategies`, `genetic`), a sliding VWAP window and a
  best-price router (`market_state`);
- parameter checks, schedules and risk limits of the TWAP, VWAP, routing and
  optimizer algorithms (`schedules`, `twap`, `vwap_schedule`, `routing_rules`,
  `optimizer_rules`), risk bands and gates (`risk_rules`), market-impact
  models and bookkeeping (`market_impact`, over the `rust_decimal` operations
  of `decimal`), and basket management and order engines (`basket`).

`app/` holds what stays outside the proofs: reading accounts and invoking
programs, the clock and randomness, serialized parameter forms, and the
floating-point models.

`tests/` exercises the library on concrete values.

## Design notes

- Registries keep their entries in `NamedTable`, a vector of name/entry pairs
  whose invariant is that no name occurs twice, rather than in a
  `HashMap<String, Arc<dyn Trait>>`. Verus proves nothing of the lookups of a
  map keyed by `String`, and it cannot call through a trait object, so such a
  map would leave every registry operation unproved. Declaring the map type to
  Verus behind trusted wrappers was not attempted: its contents would still be
  keyed by strings that Verus does not compare.
- Decimal arithmetic runs in `rust_decimal`. The library holds a decimal as a
  `Dec` (sign, 96-bit magnitude, scale) and names the result of each decimal
  operation; the impact models are proved to combine those results as stated.
  The hybrid impact model blends in floating point and stays in `app/`.
  Two of those operations may still panic inside `rust_decimal`, and nothing
  here rules it out: the square root stops with a panic if its iteration
  exceeds 1000 rounds, and the power with a fractional exponent takes a
  logarithm with the panicking `ln`. The square-root and power-law models
  rest on them.
- Registry changes give back the event that announces them
  (`AlgorithmEvent`); `app/` writes it to the program log.
- Basket operations call user-supplied risk managers and liquidity sources.
  Their contracts state which calls are made, with which arguments and in what
  order, and how each answer decides the outcome.
