# pixel

The logic of the Pixel token launchpad, a Solana program: tokens are sold
along a constant-product bonding curve, each trade pays a fee that is split
between a fee recipient and a staking pool, and stakers earn the pool's fees
epoch by epoch.

- `src/` is the verified library. Every instruction is a state transition
  over plain account values (`instructions/`), with the curve arithmetic in
  `utils/curve.rs`, the epoch and reward arithmetic in `utils/staking.rs`,
  and properties that span instructions in `laws.rs`.
- `app/` is the on-chain program around it: account validation, token and
  lamport transfers, clock reads and events.
