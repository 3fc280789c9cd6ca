# skip_go_adapters

The swap and transfer adapters of Skip Go for CosmWasm chains, as a Verus library.
An adapter takes the entry point's standard swap operations or transfer request,
turns them into a venue's or a chain's own messages, and answers simulations of
multi-hop swaps; a transfer adapter keeps what it needs to refund a transfer that
fails or times out.

- `src/` is the verified library: one module per venue or chain (`astroport`,
  `astrovault`, `chain_amm` for the Osmosis pool manager and Elys, `dexter`,
  `dezswap`, `drop`, `duality`, `hallswap`, `injective`, `lido_satellite`,
  `mantra_dex`, `oraidex`; `hyperlane`, `ibc`, `memo`, `orai_ibc_wasm` and `recovery` for
  transfers), and the shared parts (`asset`, `swap`, `simulate`, `spot_price`,
  `decimal`, `uint256`, `strings`, `error`). Every public function states what it
  returns in its contract; the laws that relate several calls are public proof
  functions next to the functions they speak of.
- `tests/` runs the library on concrete values.
- `app/` holds the CosmWasm entry points of some of the adapters: storage, the
  queries to the venues, the decoding of chain messages and the messages that go
  out, around calls into the library.
