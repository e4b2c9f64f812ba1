use vstd::prelude::*;

use crate::decimal::{units, Decimal};
use crate::resource::{Bucket, ResourceId, ResourceManager, Vault};

verus! {

/// Units minted by each call of `mint_lazy_tokens`.
pub const LAZY_MINT: i64 = 10;

/// Units minted by each call of `mint_init_supply_tokens`.
pub const INIT_SUPPLY_MINT: i64 = 100;

/// Initial supply of the token created with one.
pub const INITIAL_SUPPLY: i64 = 1000;

/// A component holding minting authority over two tokens: one created with
/// no supply, one created with an initial supply that it keeps in a vault.
#[derive(PartialEq, Eq, Structural, Clone, Copy, Debug)]
pub struct MintableToken {
    pub the_works_token: ResourceManager,
    pub init_supply_tokens: Vault,
    pub init_supply_token_resource_manager: ResourceManager,
}

impl MintableToken {
    pub open spec fn wf(&self) -> bool {
        &&& self.the_works_token.wf()
        &&& self.init_supply_tokens.wf()
        &&& self.init_supply_token_resource_manager.wf()
        &&& self.init_supply_tokens.resource == self.init_supply_token_resource_manager.resource
    }

    /// A component over the tokens `works` (no supply yet) and
    /// `init_supply` (its initial supply kept in the vault), with the one
    /// minter badge of `minter_badge` that it returns.
    pub fn instantiate_mintable_token(minter_badge: ResourceId, works: ResourceId, init_supply: ResourceId) -> (r: (MintableToken, Bucket))
        ensures
            r.0.wf(),
            r.0.the_works_token.resource == works,
            r.0.the_works_token.total_supply@ == 0,
            r.0.init_supply_tokens.resource == init_supply,
            r.0.init_supply_tokens.amount@ == units(INITIAL_SUPPLY as int),
            r.0.init_supply_token_resource_manager.resource == init_supply,
            r.0.init_supply_token_resource_manager.total_supply@ == units(INITIAL_SUPPLY as int),
            r.1.resource == minter_badge,
            r.1.amount@ == units(1),
    {
        let (_badge_manager, badge) = ResourceManager::with_initial_supply(minter_badge, Decimal::from_int(1));
        let (works_manager, _none) = ResourceManager::with_initial_supply(works, Decimal::zero());
        let (init_manager, initial) = ResourceManager::with_initial_supply(init_supply, Decimal::from_int(INITIAL_SUPPLY));
        let component = MintableToken {
            the_works_token: works_manager,
            init_supply_token_resource_manager: init_manager,
            init_supply_tokens: Vault::with_bucket(initial),
        };
        (component, badge)
    }

    /// Mints ten units of the token created with no supply.
    pub fn mint_lazy_tokens(&mut self) -> (r: Bucket)
        requires
            old(self).wf(),
            old(self).the_works_token.total_supply@ + units(LAZY_MINT as int) <= i128::MAX,
        ensures
            final(self).wf(),
            r.resource == old(self).the_works_token.resource,
            r.amount@ == units(LAZY_MINT as int),
            final(self).the_works_token.resource == old(self).the_works_token.resource,
            final(self).the_works_token.total_supply@
                == old(self).the_works_token.total_supply@ + units(LAZY_MINT as int),
            final(self).init_supply_tokens == old(self).init_supply_tokens,
            final(self).init_supply_token_resource_manager == old(self).init_supply_token_resource_manager,
    {
        self.the_works_token.mint(Decimal::from_int(LAZY_MINT))
    }

    /// Mints a hundred units of the token created with an initial supply.
    pub fn mint_init_supply_tokens(&mut self) -> (r: Bucket)
        requires
            old(self).wf(),
            old(self).init_supply_token_resource_manager.total_supply@ + units(INIT_SUPPLY_MINT as int) <= i128::MAX,
        ensures
            final(self).wf(),
            r.resource == old(self).init_supply_token_resource_manager.resource,
            r.amount@ == units(INIT_SUPPLY_MINT as int),
            final(self).init_supply_token_resource_manager.resource
                == old(self).init_supply_token_resource_manager.resource,
            final(self).init_supply_token_resource_manager.total_supply@
                == old(self).init_supply_token_resource_manager.total_supply@ + units(INIT_SUPPLY_MINT as int),
            final(self).the_works_token == old(self).the_works_token,
            final(self).init_supply_tokens == old(self).init_supply_tokens,
    {
        self.init_supply_token_resource_manager.mint(Decimal::from_int(INIT_SUPPLY_MINT))
    }
}

} // verus!
