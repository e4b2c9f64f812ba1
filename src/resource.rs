use vstd::prelude::*;

use crate::decimal::Decimal;

verus! {

/// Identifies one asset type, as the host's resource manager assigned it.
#[derive(PartialEq, Eq, Structural, Clone, Copy, Debug)]
pub struct ResourceId {
    pub id: u64,
}

/// Why an operation was refused. A refused operation changes nothing.
#[derive(PartialEq, Eq, Structural, Clone, Copy, Debug)]
pub enum ExchangeError {
    /// The payment is of the wrong asset type, or holds less than the price.
    InsufficientPayment,
    /// The product container is empty.
    OutOfStock,
    /// The owner badge was not presented.
    Unauthorized,
    /// An asset of one type was offered to a container of another.
    TypeMismatch,
}

/// A quantity of one asset type in transit between callers and components.
#[derive(PartialEq, Eq, Structural, Clone, Copy, Debug)]
pub struct Bucket {
    pub resource: ResourceId,
    pub amount: Decimal,
}

/// A quantity of one asset type held by exactly one component.
#[derive(PartialEq, Eq, Structural, Clone, Copy, Debug)]
pub struct Vault {
    pub resource: ResourceId,
    pub amount: Decimal,
}

impl Bucket {
    pub open spec fn wf(&self) -> bool {
        self.amount@ >= 0
    }

    pub fn new(resource: ResourceId, amount: Decimal) -> (r: Bucket)
        ensures
            r == (Bucket { resource, amount }),
    {
        Bucket { resource, amount }
    }

    pub fn empty(resource: ResourceId) -> (r: Bucket)
        ensures
            r.resource == resource,
            r.amount@ == 0,
    {
        Bucket { resource, amount: Decimal::zero() }
    }

    pub fn resource_address(&self) -> (r: ResourceId)
        ensures
            r == self.resource,
    {
        self.resource
    }

    pub fn amount(&self) -> (r: Decimal)
        ensures
            r == self.amount,
    {
        self.amount
    }

    pub fn is_empty(&self) -> (r: bool)
        ensures
            r == (self.amount@ == 0),
    {
        self.amount.attos == 0
    }

    /// Splits `amount` off this bucket. Refused (`None`, nothing changed)
    /// where `amount` is negative or more than the bucket holds.
    pub fn take(&mut self, amount: Decimal) -> (r: Option<Bucket>)
        requires
            old(self).wf(),
        ensures
            final(self).wf(),
            r is Some <==> 0 <= amount@ <= old(self).amount@,
            r matches Some(b) ==> b == (Bucket { resource: old(self).resource, amount })
                && final(self).resource == old(self).resource
                && final(self).amount@ == old(self).amount@ - amount@,
            r is None ==> *final(self) == *old(self),
    {
        if amount.is_negative() || !amount.le(&self.amount) {
            return None;
        }
        self.amount = Decimal { attos: self.amount.attos - amount.attos };
        Some(Bucket { resource: self.resource, amount })
    }
}

impl Vault {
    pub open spec fn wf(&self) -> bool {
        self.amount@ >= 0
    }

    /// An empty vault for `resource`.
    pub fn new(resource: ResourceId) -> (r: Vault)
        ensures
            r.resource == resource,
            r.amount@ == 0,
    {
        Vault { resource, amount: Decimal::zero() }
    }

    /// A vault that holds what `bucket` held.
    pub fn with_bucket(bucket: Bucket) -> (r: Vault)
        ensures
            r.resource == bucket.resource,
            r.amount == bucket.amount,
    {
        Vault { resource: bucket.resource, amount: bucket.amount }
    }

    pub fn amount(&self) -> (r: Decimal)
        ensures
            r == self.amount,
    {
        self.amount
    }

    /// Deposits `bucket`. Refused with `TypeMismatch` where it holds another
    /// asset type.
    pub fn put(&mut self, bucket: Bucket) -> (r: Result<(), ExchangeError>)
        requires
            old(self).wf(),
            bucket.wf(),
            old(self).amount@ + bucket.amount@ <= i128::MAX,
        ensures
            final(self).wf(),
            r is Ok <==> bucket.resource == old(self).resource,
            r is Ok ==> final(self).resource == old(self).resource
                && final(self).amount@ == old(self).amount@ + bucket.amount@,
            r is Err ==> r == Err::<(), ExchangeError>(ExchangeError::TypeMismatch)
                && *final(self) == *old(self),
    {
        if bucket.resource != self.resource {
            return Err(ExchangeError::TypeMismatch);
        }
        self.amount = Decimal { attos: self.amount.attos + bucket.amount.attos };
        Ok(())
    }

    /// Withdraws `amount`. Refused (`None`, nothing changed) where `amount`
    /// is negative or more than the vault holds.
    pub fn take(&mut self, amount: Decimal) -> (r: Option<Bucket>)
        requires
            old(self).wf(),
        ensures
            final(self).wf(),
            r is Some <==> 0 <= amount@ <= old(self).amount@,
            r matches Some(b) ==> b == (Bucket { resource: old(self).resource, amount })
                && final(self).resource == old(self).resource
                && final(self).amount@ == old(self).amount@ - amount@,
            r is None ==> *final(self) == *old(self),
    {
        if amount.is_negative() || !amount.le(&self.amount) {
            return None;
        }
        self.amount = Decimal { attos: self.amount.attos - amount.attos };
        Some(Bucket { resource: self.resource, amount })
    }

    /// Withdraws everything the vault holds, leaving it empty.
    pub fn take_all(&mut self) -> (r: Bucket)
        ensures
            r == (Bucket { resource: old(self).resource, amount: old(self).amount }),
            final(self).resource == old(self).resource,
            final(self).amount@ == 0,
    {
        let all = self.amount;
        self.amount = Decimal::zero();
        Bucket { resource: self.resource, amount: all }
    }
}

/// The issuer of one asset type, with the supply issued so far.
#[derive(PartialEq, Eq, Structural, Clone, Copy, Debug)]
pub struct ResourceManager {
    pub resource: ResourceId,
    pub total_supply: Decimal,
}

impl ResourceManager {
    pub open spec fn wf(&self) -> bool {
        self.total_supply@ >= 0
    }

    /// The issuer of `resource`, with `bucket` as its initial supply.
    pub fn with_initial_supply(resource: ResourceId, amount: Decimal) -> (r: (ResourceManager, Bucket))
        requires
            amount@ >= 0,
        ensures
            r.0 == (ResourceManager { resource, total_supply: amount }),
            r.1 == (Bucket { resource, amount }),
    {
        (ResourceManager { resource, total_supply: amount }, Bucket { resource, amount })
    }

    /// Issues `amount` new units, which raise the supply by as much.
    pub fn mint(&mut self, amount: Decimal) -> (r: Bucket)
        requires
            old(self).wf(),
            amount@ >= 0,
            old(self).total_supply@ + amount@ <= i128::MAX,
        ensures
            final(self).wf(),
            r == (Bucket { resource: old(self).resource, amount }),
            final(self).resource == old(self).resource,
            final(self).total_supply@ == old(self).total_supply@ + amount@,
    {
        self.total_supply = Decimal { attos: self.total_supply.attos + amount.attos };
        Bucket { resource: self.resource, amount }
    }
}

} // verus!
