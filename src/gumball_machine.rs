use vstd::prelude::*;

use crate::decimal::{units, Decimal, ATTOS_PER_UNIT};
use crate::resource::{Bucket, ExchangeError, ResourceId, Vault};

verus! {

/// Whole gumballs a machine starts with, and the level a refill restores.
pub const FULL_STOCK: i64 = 100;

/// What a machine reports of itself: its price and the gumballs it holds.
#[derive(PartialEq, Eq, Structural, Clone, Copy, Debug)]
pub struct Status {
    pub price: Decimal,
    pub amount: Decimal,
}

/// Sells one gumball at a time for the settlement asset.
#[derive(PartialEq, Eq, Structural, Clone, Copy, Debug)]
pub struct GumballMachine {
    /// The product container.
    pub gumballs: Vault,
    /// The settlement-asset container that payments go to.
    pub collected_xrd: Vault,
    pub price: Decimal,
    /// The badge whose holder may use the owner-gated methods; none for a
    /// machine that is owned by another component and not yet globalized.
    pub owner_badge: Option<ResourceId>,
    /// Whether the machine holds minting authority over its product.
    pub mintable: bool,
}

/// Whether `badge` is a proof of the owner badge `owner`.
pub open spec fn owner_proof(owner: Option<ResourceId>, badge: Bucket) -> bool {
    owner == Some(badge.resource) && badge.amount@ > 0
}

/// Checks `badge` against the owner badge `owner`.
pub fn check_owner(owner: Option<ResourceId>, badge: &Bucket) -> (r: bool)
    ensures
        r == owner_proof(owner, *badge),
{
    match owner {
        Some(o) => o == badge.resource && badge.amount.is_positive(),
        None => false,
    }
}

impl GumballMachine {
    pub open spec fn wf(&self) -> bool {
        self.gumballs.wf() && self.collected_xrd.wf()
    }

    /// Whether `payment` covers the price: the settlement asset, at least
    /// the price, and a price that is not negative.
    pub open spec fn pays(&self, payment: Bucket) -> bool {
        payment.resource == self.collected_xrd.resource && 0 <= self.price@ <= payment.amount@
    }

    pub open spec fn in_stock(&self) -> bool {
        self.gumballs.amount@ >= units(1)
    }

    /// The machine after one sale: a gumball fewer, the price collected.
    pub open spec fn after_sale(self) -> GumballMachine {
        GumballMachine {
            gumballs: Vault {
                resource: self.gumballs.resource,
                amount: Decimal { attos: (self.gumballs.amount@ - units(1)) as i128 },
            },
            collected_xrd: Vault {
                resource: self.collected_xrd.resource,
                amount: Decimal { attos: (self.collected_xrd.amount@ + self.price@) as i128 },
            },
            ..self
        }
    }

    /// What `withdraw_earnings` hands out: all collected funds.
    pub open spec fn earnings(self) -> Bucket {
        Bucket { resource: self.collected_xrd.resource, amount: self.collected_xrd.amount }
    }

    /// The machine with its collected funds withdrawn.
    pub open spec fn drained(self) -> GumballMachine {
        GumballMachine {
            collected_xrd: Vault { resource: self.collected_xrd.resource, amount: Decimal { attos: 0 } },
            ..self
        }
    }

    /// The machine after a refill to full stock (unchanged when already full).
    pub open spec fn refilled(self) -> GumballMachine {
        if self.gumballs.amount@ >= units(FULL_STOCK as int) {
            self
        } else {
            GumballMachine {
                gumballs: Vault {
                    resource: self.gumballs.resource,
                    amount: Decimal { attos: units(FULL_STOCK as int) as i128 },
                },
                ..self
            }
        }
    }

    /// How much a refill mints.
    pub open spec fn refill_amount(self) -> int {
        if self.gumballs.amount@ >= units(FULL_STOCK as int) {
            0
        } else {
            units(FULL_STOCK as int) - self.gumballs.amount@
        }
    }

    /// A machine with a full stock of `gumball`, an empty container of
    /// `xrd`, and `price`; owned by no badge until it is globalized.
    pub fn instantiate_owned(price: Decimal, gumball: ResourceId, xrd: ResourceId) -> (r: GumballMachine)
        requires
            price@ >= 0,
        ensures
            r.wf(),
            r.gumballs == (Vault { resource: gumball, amount: Decimal { attos: units(FULL_STOCK as int) as i128 } }),
            r.collected_xrd.resource == xrd,
            r.collected_xrd.amount@ == 0,
            r.price == price,
            r.owner_badge is None,
            r.mintable,
    {
        GumballMachine {
            gumballs: Vault::with_bucket(Bucket::new(gumball, Decimal::from_int(FULL_STOCK))),
            collected_xrd: Vault::new(xrd),
            price,
            owner_badge: None,
            mintable: true,
        }
    }

    /// A globalized machine that can mint more gumballs, with the one owner
    /// badge of `badge` that controls it.
    pub fn instantiate_global(price: Decimal, gumball: ResourceId, xrd: ResourceId, badge: ResourceId) -> (r: (GumballMachine, Bucket))
        requires
            price@ >= 0,
        ensures
            r.0.wf(),
            r.0.gumballs == (Vault { resource: gumball, amount: Decimal { attos: units(FULL_STOCK as int) as i128 } }),
            r.0.collected_xrd.resource == xrd,
            r.0.collected_xrd.amount@ == 0,
            r.0.price == price,
            r.0.owner_badge == Some(badge),
            r.0.mintable,
            r.1.resource == badge,
            r.1.amount@ == units(1),
    {
        let mut machine = GumballMachine::instantiate_owned(price, gumball, xrd);
        machine.owner_badge = Some(badge);
        (machine, Bucket::new(badge, Decimal::from_int(1)))
    }

    /// A globalized machine with a fixed supply of gumballs, with the one
    /// owner badge of `badge` that controls it.
    pub fn instantiate_gumball_machine(price: Decimal, gumball: ResourceId, xrd: ResourceId, badge: ResourceId) -> (r: (GumballMachine, Bucket))
        requires
            price@ >= 0,
        ensures
            r.0.wf(),
            r.0.gumballs == (Vault { resource: gumball, amount: Decimal { attos: units(FULL_STOCK as int) as i128 } }),
            r.0.collected_xrd.resource == xrd,
            r.0.collected_xrd.amount@ == 0,
            r.0.price == price,
            r.0.owner_badge == Some(badge),
            !r.0.mintable,
            r.1.resource == badge,
            r.1.amount@ == units(1),
    {
        let (mut machine, owner) = GumballMachine::instantiate_global(price, gumball, xrd, badge);
        machine.mintable = false;
        (machine, owner)
    }
    /// Sells one gumball for `payment`: the price goes to the collected
    /// funds, and the gumball comes back with the rest of the payment as
    /// change. An empty machine refuses with `OutOfStock`, whatever the
    /// payment; a payment that does not cover the price is refused with
    /// `InsufficientPayment`. A refused sale changes nothing.
    pub fn buy_gumball(&mut self, payment: Bucket) -> (r: Result<(Bucket, Bucket), ExchangeError>)
        requires
            old(self).wf(),
            payment.wf(),
            old(self).collected_xrd.amount@ + old(self).price@ <= i128::MAX,
        ensures
            final(self).wf(),
            !old(self).in_stock() ==> r == Err::<(Bucket, Bucket), ExchangeError>(ExchangeError::OutOfStock),
            old(self).in_stock() && !old(self).pays(payment)
                ==> r == Err::<(Bucket, Bucket), ExchangeError>(ExchangeError::InsufficientPayment),
            old(self).in_stock() && old(self).pays(payment) ==> {
                &&& *final(self) == old(self).after_sale()
                &&& r matches Ok((product, change))
                &&& product.resource == old(self).gumballs.resource
                &&& product.amount@ == units(1)
                &&& change.resource == payment.resource
                &&& change.amount@ == payment.amount@ - old(self).price@
            },
            r is Err ==> *final(self) == *old(self),
    {
        if self.gumballs.amount.attos < ATTOS_PER_UNIT {
            return Err(ExchangeError::OutOfStock);
        }
        if payment.resource != self.collected_xrd.resource {
            return Err(ExchangeError::InsufficientPayment);
        }
        let mut payment = payment;
        let our_share = match payment.take(self.price) {
            Some(b) => b,
            None => {
                return Err(ExchangeError::InsufficientPayment);
            },
        };
        let put = self.collected_xrd.put(our_share);
        assert(put is Ok);
        let product = self.gumballs.take(Decimal::from_int(1));
        match product {
            Some(gumball) => Ok((gumball, payment)),
            None => Err(ExchangeError::OutOfStock),
        }
    }

    pub fn get_price(&self) -> (r: Decimal)
        ensures
            r == self.price,
    {
        self.price
    }

    pub fn get_status(&self) -> (r: Status)
        ensures
            r == (Status { price: self.price, amount: self.gumballs.amount }),
    {
        Status { price: self.price, amount: self.gumballs.amount() }
    }

    /// Replaces the price, for the holder of the owner badge; refused with
    /// `Unauthorized` otherwise.
    pub fn set_price(&mut self, badge: &Bucket, price: Decimal) -> (r: Result<(), ExchangeError>)
        ensures
            r is Ok <==> owner_proof(old(self).owner_badge, *badge),
            r is Ok ==> *final(self) == (GumballMachine { price, ..*old(self) }),
            r is Err ==> r == Err::<(), ExchangeError>(ExchangeError::Unauthorized)
                && *final(self) == *old(self),
    {
        if !check_owner(self.owner_badge, badge) {
            return Err(ExchangeError::Unauthorized);
        }
        self.price = price;
        Ok(())
    }

    /// Hands all collected funds to the holder of the owner badge, leaving
    /// none behind; refused with `Unauthorized` otherwise.
    pub fn withdraw_earnings(&mut self, badge: &Bucket) -> (r: Result<Bucket, ExchangeError>)
        ensures
            r is Ok <==> owner_proof(old(self).owner_badge, *badge),
            r matches Ok(b) ==> b == old(self).earnings() && *final(self) == old(self).drained(),
            r is Err ==> r == Err::<Bucket, ExchangeError>(ExchangeError::Unauthorized)
                && *final(self) == *old(self),
    {
        if !check_owner(self.owner_badge, badge) {
            return Err(ExchangeError::Unauthorized);
        }
        Ok(self.collected_xrd.take_all())
    }

    /// Mints gumballs up to full stock, for the holder of the owner badge of
    /// a machine with minting authority, and returns how much was minted
    /// (nothing where the stock is already full). Refused with
    /// `Unauthorized` otherwise.
    pub fn refill_gumball_machine(&mut self, badge: &Bucket) -> (r: Result<Decimal, ExchangeError>)
        requires
            old(self).wf(),
        ensures
            final(self).wf(),
            r is Ok <==> owner_proof(old(self).owner_badge, *badge) && old(self).mintable,
            r matches Ok(minted) ==> minted@ == old(self).refill_amount()
                && *final(self) == old(self).refilled(),
            r is Err ==> r == Err::<Decimal, ExchangeError>(ExchangeError::Unauthorized)
                && *final(self) == *old(self),
    {
        if !check_owner(self.owner_badge, badge) || !self.mintable {
            return Err(ExchangeError::Unauthorized);
        }
        let full = Decimal::from_int(FULL_STOCK);
        if full.le(&self.gumballs.amount) {
            return Ok(Decimal::zero());
        }
        let minted = Decimal { attos: full.attos - self.gumballs.amount.attos };
        let put = self.gumballs.put(Bucket::new(self.gumballs.resource, minted));
        assert(put is Ok);
        Ok(minted)
    }
}

/// Withdrawing earnings twice in a row drains the machine: the first
/// withdrawal hands out everything collected (something, where anything was
/// collected), the second hands out nothing and changes nothing further.
pub proof fn lemma_withdraw_twice(m: GumballMachine)
    requires
        m.wf(),
    ensures
        m.earnings().amount == m.collected_xrd.amount,
        m.collected_xrd.amount@ > 0 ==> !(m.earnings().amount@ == 0),
        m.drained().earnings().amount@ == 0,
        m.drained().earnings().resource == m.earnings().resource,
        m.drained().drained() == m.drained(),
        m.drained().wf(),
{
}

} // verus!
