//! Verified core of the Skip Go swap and IBC adapter contracts: the decimal
//! arithmetic, the validation of swap routes, the spot price computations and the
//! decisions that the adapters take between their chain queries and messages.

pub mod asset;
pub mod astroport;
pub mod astrovault;
pub mod chain_amm;
pub mod decimal;
pub mod dexter;
pub mod dezswap;
pub mod drop;
pub mod duality;
pub mod error;
pub mod hallswap;
pub mod hyperlane;
pub mod ibc;
pub mod injective;
pub mod lido_satellite;
pub mod mantra_dex;
pub mod memo;
pub mod orai_ibc_wasm;
pub mod oraidex;
pub mod recovery;
pub mod simulate;
pub mod spot_price;
pub mod strings;
pub mod swap;
pub mod uint256;
