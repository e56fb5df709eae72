# Anker

Anker is a Solana program that mints bSOL against deposits of stSOL, and pays stSOL back
for bSOL. It belongs to an instance of Solido, whose exchange rate fixes the peg: one bSOL
is worth one SOL.

The library in `src/` is verified with Verus. It decides what each instruction does. It
checks the accounts, calculates the amounts, and lays down the actions to perform outside
the program, in order. It performs none of them itself.

- `processor`: the instructions, from `process` down.
- `action`: the actions of an instruction, and how it goes on after each of them.
- `instruction`: the encoding of the instructions, and the accounts of each.
- `account`, `solido`, `state`, `spl`: what accounts hold, and the checks they have to pass.
- `derived`, `address`: the addresses that the program derives and signs for.
- `exchange`, `token`: amounts and exchange rates.
- `amount_laws`, `encoding_laws`, `process_laws`, `history_laws`: what is proved of all of
  these together, the last of them over sequences of calls.

What the library takes on trust from `solana-program`, `spl-token` and `borsh` stands in
functions marked `external_body`, each with a comment on what is claimed of it.

The program around the library is in `app/`: it reads the accounts, hands them to the
library, and performs the actions. It is generic over the other parts of the program: the
account lists, the reading of Solido and token swap state, and the calls to other programs.
