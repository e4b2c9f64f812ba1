use vstd::prelude::*;

use crate::decimal::{units, Decimal};
use crate::gumball_machine::{check_owner, owner_proof, GumballMachine};
use crate::resource::{Bucket, ExchangeError, ResourceId, Vault};

verus! {

/// A store that runs a gumball machine: it keeps the machine's owner badge
/// and presents it, for one forwarded call at a time, on behalf of its own
/// owner.
#[derive(PartialEq, Eq, Structural, Clone, Copy, Debug)]
pub struct CandyStore {
    pub gumball_machine: GumballMachine,
    /// The machine's owner badges, which never leave the store.
    pub gumball_machine_owner_badges: Vault,
    /// The badge whose holder may use the store's owner-gated methods.
    pub owner_badge: ResourceId,
}

impl CandyStore {
    pub open spec fn wf(&self) -> bool {
        self.gumball_machine.wf() && self.gumball_machine_owner_badges.wf()
    }

    /// The proof that the store presents to its machine: one unit of the
    /// badges it keeps.
    pub open spec fn machine_proof(&self) -> Bucket {
        Bucket { resource: self.gumball_machine_owner_badges.resource, amount: Decimal { attos: units(1) as i128 } }
    }

    /// Whether the store can authorize a forwarded call: `badge` proves its
    /// owner, and it keeps at least one badge that its machine accepts.
    pub open spec fn can_forward(&self, badge: Bucket) -> bool {
        &&& owner_proof(Some(self.owner_badge), badge)
        &&& self.gumball_machine_owner_badges.amount@ >= units(1)
        &&& owner_proof(self.gumball_machine.owner_badge, self.machine_proof())
    }

    /// Checks `badge` and builds the proof for the machine; `None` where the
    /// store cannot authorize the call.
    fn authorize(&self, badge: &Bucket) -> (r: Option<Bucket>)
        ensures
            r is Some <==> self.can_forward(*badge),
            r matches Some(p) ==> p == self.machine_proof(),
    {
        if !check_owner(Some(self.owner_badge), badge) {
            return None;
        }
        let one = Decimal::from_int(1);
        if !one.le(&self.gumball_machine_owner_badges.amount) {
            return None;
        }
        let proof = Bucket::new(self.gumball_machine_owner_badges.resource, one);
        if !check_owner(self.gumball_machine.owner_badge, &proof) {
            return None;
        }
        Some(proof)
    }

    /// A store selling gumballs of `gumball` at `gumball_price` for `xrd`,
    /// whose machine is controlled by `machine_badge` and which is itself
    /// controlled by the one owner badge of `badge` that it returns.
    pub fn instantiate_candy_store(
        gumball_price: Decimal,
        gumball: ResourceId,
        xrd: ResourceId,
        machine_badge: ResourceId,
        badge: ResourceId,
    ) -> (r: (CandyStore, Bucket))
        requires
            gumball_price@ >= 0,
        ensures
            r.0.wf(),
            r.0.gumball_machine.gumballs.resource == gumball,
            r.0.gumball_machine.gumballs.amount@ == units(100),
            r.0.gumball_machine.collected_xrd.resource == xrd,
            r.0.gumball_machine.collected_xrd.amount@ == 0,
            r.0.gumball_machine.price == gumball_price,
            r.0.gumball_machine.owner_badge == Some(machine_badge),
            r.0.gumball_machine.mintable,
            r.0.gumball_machine_owner_badges == (Vault { resource: machine_badge, amount: Decimal { attos: units(1) as i128 } }),
            r.0.owner_badge == badge,
            r.1.resource == badge,
            r.1.amount@ == units(1),
    {
        let (gumball_machine, machine_owner) = GumballMachine::instantiate_global(gumball_price, gumball, xrd, machine_badge);
        let store = CandyStore {
            gumball_machine,
            gumball_machine_owner_badges: Vault::with_bucket(machine_owner),
            owner_badge: badge,
        };
        (store, Bucket::new(badge, Decimal::from_int(1)))
    }

    /// The machine's current price.
    pub fn get_prices(&self) -> (r: Decimal)
        ensures
            r == self.gumball_machine.price,
    {
        self.gumball_machine.get_price()
    }

    /// Buys a gumball from the store's machine.
    pub fn buy_gumball(&mut self, payment: Bucket) -> (r: Result<(Bucket, Bucket), ExchangeError>)
        requires
            old(self).wf(),
            payment.wf(),
            old(self).gumball_machine.collected_xrd.amount@ + old(self).gumball_machine.price@ <= i128::MAX,
        ensures
            final(self).wf(),
            final(self).gumball_machine_owner_badges == old(self).gumball_machine_owner_badges,
            final(self).owner_badge == old(self).owner_badge,
            !old(self).gumball_machine.in_stock()
                ==> r == Err::<(Bucket, Bucket), ExchangeError>(ExchangeError::OutOfStock),
            old(self).gumball_machine.in_stock() && !old(self).gumball_machine.pays(payment)
                ==> r == Err::<(Bucket, Bucket), ExchangeError>(ExchangeError::InsufficientPayment),
            old(self).gumball_machine.in_stock() && old(self).gumball_machine.pays(payment) ==> {
                &&& final(self).gumball_machine == old(self).gumball_machine.after_sale()
                &&& r matches Ok((product, change))
                &&& product.resource == old(self).gumball_machine.gumballs.resource
                &&& product.amount@ == units(1)
                &&& change.resource == payment.resource
                &&& change.amount@ == payment.amount@ - old(self).gumball_machine.price@
            },
            r is Err ==> *final(self) == *old(self),
    {
        self.gumball_machine.buy_gumball(payment)
    }

    /// Sets the machine's price, for the holder of the store's owner badge.
    pub fn set_gumball_price(&mut self, badge: &Bucket, new_price: Decimal) -> (r: Result<(), ExchangeError>)
        ensures
            r is Ok <==> old(self).can_forward(*badge),
            r is Ok ==> *final(self) == (CandyStore {
                gumball_machine: GumballMachine { price: new_price, ..old(self).gumball_machine },
                ..*old(self)
            }),
            r is Err ==> r == Err::<(), ExchangeError>(ExchangeError::Unauthorized)
                && *final(self) == *old(self),
    {
        match self.authorize(badge) {
            Some(proof) => self.gumball_machine.set_price(&proof, new_price),
            None => Err(ExchangeError::Unauthorized),
        }
    }

    /// Refills the machine to full stock, for the holder of the store's owner
    /// badge, and returns how much was minted.
    pub fn restock_store(&mut self, badge: &Bucket) -> (r: Result<Decimal, ExchangeError>)
        requires
            old(self).wf(),
        ensures
            final(self).wf(),
            r is Ok <==> old(self).can_forward(*badge) && old(self).gumball_machine.mintable,
            r matches Ok(minted) ==> minted@ == old(self).gumball_machine.refill_amount()
                && *final(self) == (CandyStore { gumball_machine: old(self).gumball_machine.refilled(), ..*old(self) }),
            r is Err ==> r == Err::<Decimal, ExchangeError>(ExchangeError::Unauthorized)
                && *final(self) == *old(self),
    {
        match self.authorize(badge) {
            Some(proof) => self.gumball_machine.refill_gumball_machine(&proof),
            None => Err(ExchangeError::Unauthorized),
        }
    }

    /// Withdraws all the machine's collected funds, for the holder of the
    /// store's owner badge.
    pub fn withdraw_earnings(&mut self, badge: &Bucket) -> (r: Result<Bucket, ExchangeError>)
        ensures
            r is Ok <==> old(self).can_forward(*badge),
            r matches Ok(b) ==> b == old(self).gumball_machine.earnings()
                && *final(self) == (CandyStore { gumball_machine: old(self).gumball_machine.drained(), ..*old(self) }),
            r is Err ==> r == Err::<Bucket, ExchangeError>(ExchangeError::Unauthorized)
                && *final(self) == *old(self),
    {
        match self.authorize(badge) {
            Some(proof) => self.gumball_machine.withdraw_earnings(&proof),
            None => Err(ExchangeError::Unauthorized),
        }
    }
}

/// A store built by `instantiate_candy_store`, with the owner badge it
/// returned, can always forward: the badge the store keeps is the one its
/// machine accepts.
pub proof fn lemma_new_store_forwards(store: CandyStore, owner: Bucket)
    requires
        store.gumball_machine.owner_badge == Some(store.gumball_machine_owner_badges.resource),
        store.gumball_machine_owner_badges.amount@ == units(1),
        owner.resource == store.owner_badge,
        owner.amount@ == units(1),
    ensures
        store.can_forward(owner),
{
}

} // verus!
