# cama_dig

Rules of the Dig mining game, written in Verus. The functions of `src/` carry
contracts and are proved to keep them. Three things are not proved: what the
small wrappers in `json`, `streak` and `inventory` claim of `serde_json`, of
`chrono` and of the standard library's clock, which is believed as their comments
state it; what the clock shows, of which nothing is claimed; and how a store or a
tax answers through the trait that stands for it, whose methods carry no
contract, so that the rules hold for every answer.

- `src/` holds the rules. A dig goes through `admission`, `light`, `cave_in`,
  `ruling`, `settlement`, `turn` and `report`; a boss fight through `encounter`,
  `wager`, `preparation`, `attempt`, `fight`, `pinnacle` and `spoils`; `miner` and
  `inventory` serve what a player keeps between digs. Columns that hold JSON are
  read and written by `json`, and `version` tells a stale snapshot from a current
  one.
- `tests/` runs the rules on concrete values.
- `app/` is the deployment around them: settings, the database, odds and the
  traits through which the rest of the game answers.

Laws that span several functions are public proof functions named `law_*`, beside
the functions they speak of.
