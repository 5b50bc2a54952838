//! Single-lot ascending auctions (settled in native value or in a fungible
//! token) and a factory that provisions new auction instances from a stored
//! template. Ambient context (caller, attached deposit, current time) is
//! passed in explicitly, and outbound transfers are returned as effects for
//! the hosting layer to dispatch.
pub mod amount;
pub mod effects;
pub mod error;
pub mod factory;
pub mod fungible;
pub mod ledger;
pub mod native;

pub use amount::parse_amount;
pub use effects::Effect;
pub use error::AuctionError;
pub use factory::{
    finish_deployment, Deployment, Factory, InitArgs, MAX_NAME_LEN, MIN_DEPLOY_DEPOSIT,
};
pub use fungible::{FtAuction, FtAuctionInfo};
pub use ledger::{Bid, Ledger};
pub use native::{AuctionInfo, NativeAuction};
