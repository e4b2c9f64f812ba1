//! A linear-resource exchange component: vaults and buckets that hold
//! quantities of one asset type, a gumball machine that sells its product for
//! a settlement asset, a candy store that operates a machine through the
//! machine's owner badge, and a token whose supply grows on demand.

pub mod decimal;
pub mod resource;
pub mod gumball_machine;
pub mod candy_store;
pub mod the_works;
