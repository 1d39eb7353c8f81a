# voting_app

A poll-and-vote program for Solana, written against the Anchor framework.

- `src/` is the verified library: the accounts' data (`state`), the
  instructions that set up a poll, register a candidate and cast a vote
  (`instructions`, entered through `voting_app`), the program's errors
  (`error`), and the properties that hold across instructions (`laws`).
  The vote reads the cluster clock through the framework; everything it then
  decides is proved.
- `app/` is the on-chain shell: account validation, address derivation and
  instruction dispatch by the framework's macros, handing plain values to the
  library and writing its results back to the accounts.
- `tests/` runs the library on concrete polls and votes.
