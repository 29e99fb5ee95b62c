# solana_cli

The commands of a wallet for a Solana cluster: balances, airdrops, payments and transfers, contracts
that hold payments back, derived addresses, and the deployment of programs.

The library in `src/` is written in Verus.  It never touches the network, a file or a device.  A
command is a sequence of steps: each says what it needs next (a blockhash, a balance, a nonce check,
the outcome of a transaction, the bytes of a file), and resuming it with the answer leads to the next
one, until the command comes to its text or its error.  Each step's contract says exactly what comes
next for every answer.

`app/` performs the steps: it reads arguments with clap, talks to the cluster and the faucet, and
opens files and hardware wallets.  Commands of the other modules of the command line (cluster
queries, nonces, stakes, storage, validator info, votes) are handed on to them.

## Layout

| | |
|---|---|
| `text`, `amount`, `time`, `keys` | texts, amounts, moments, keys and signatures |
| `grammar`, `matches`, `route`, `parse`, `admission` | the command line: what it accepts and what it is read as |
| `command`, `delegate`, `errors`, `progress` | commands, those of other modules, what can go wrong, and how far a command has come |
| `instruction`, `transaction`, `compose` | instructions, messages and the transactions that are sent |
| `authority`, `signing`, `handover` | who signs, and signatures made on another machine |
| `fees`, `submit`, `pay`, `deploy`, `airdrop`, `account`, `process` | the commands |

## What is proved

Besides the contract of every function:

- what is signed on one machine and handed over is what another machine submits, and nothing goes on
  with a signature that does not hold;
- a command that only signs needs nothing from outside and sends nothing;
- no payment, transfer or deployment is sent before the cluster has said that its payer can pay;
- the chunks that a program is written in are, put together, the program;
- what the grammar accepts can be read, but for three public keys that it leaves unchecked, and every
  subcommand that it describes leads to its parser.

What the outside crates do is stated at the functions marked `external_body`, each with a comment
that says what is claimed of it.
