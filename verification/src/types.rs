use vstd::prelude::*;
use vstd::std_specs::cmp::PartialEqSpec;
use vstd::std_specs::cmp::PartialOrdSpec;
use vstd::std_specs::convert::FromSpec;
use core::cmp::Ordering;

verus! {

/// Represents either a System currency or a set of fungible assets.
#[derive(Clone, PartialEq, Debug)]
pub enum BalanceOrAsset<Balance, AssetId, AssetBalance> {
    Balance { amount: Balance },
    Asset { id: AssetId, amount: AssetBalance },
}

impl<B, A, AB> From<B> for BalanceOrAsset<B, A, AB> {
    fn from(amount: B) -> (r: Self) {
        BalanceOrAsset::Balance { amount }
    }
}

impl<B, A, AB> vstd::std_specs::convert::FromSpecImpl<B> for BalanceOrAsset<B, A, AB> {
    open spec fn obeys_from_spec() -> bool {
        true
    }

    open spec fn from_spec(v: B) -> Self {
        BalanceOrAsset::Balance { amount: v }
    }
}

/// `o` says that the left operand is greater than or equal to the right one.
pub open spec fn at_least(o: Option<Ordering>) -> bool {
    o matches Some(Ordering::Greater | Ordering::Equal)
}

impl<B: PartialOrd, A: PartialEq, AB: PartialOrd> BalanceOrAsset<B, A, AB> {
    /// Both values are of the same kind (both native balance or both assets).
    pub open spec fn same_kind(&self, other: &Self) -> bool {
        (self is Balance && other is Balance) || (self is Asset && other is Asset)
    }

    /// The amounts compare as greater or equal, by the amount types' own order.
    pub open spec fn amount_at_least(&self, other: &Self) -> bool {
        match (self, other) {
            (BalanceOrAsset::Balance { amount: a }, BalanceOrAsset::Balance { amount: b }) =>
                at_least(a.partial_cmp_spec(b)),
            (BalanceOrAsset::Asset { amount: a, .. }, BalanceOrAsset::Asset { amount: b, .. }) =>
                at_least(a.partial_cmp_spec(b)),
            _ => false,
        }
    }

    /// Both values are in the same currency: both native balance, or assets with equal ids.
    pub open spec fn same_currency(&self, other: &Self) -> bool {
        match (self, other) {
            (BalanceOrAsset::Balance { .. }, BalanceOrAsset::Balance { .. }) => true,
            (BalanceOrAsset::Asset { id, .. }, BalanceOrAsset::Asset { id: id2, .. }) =>
                id.eq_spec(id2),
            _ => false,
        }
    }

    /// Whether `self` holds at least as much as `other`, in the same kind of value.
    /// A balance and an asset are never comparable.
    pub fn is_greater_or_equal(&self, other: &Self) -> (r: bool)
        ensures
            !self.same_kind(other) ==> !r,
            self is Balance && other is Balance && B::obeys_partial_cmp_spec()
                ==> r == self.amount_at_least(other),
            self is Asset && other is Asset && AB::obeys_partial_cmp_spec()
                ==> r == self.amount_at_least(other),
    {
        match (self, other) {
            (BalanceOrAsset::Balance { amount: a }, BalanceOrAsset::Balance { amount: b }) => a >= b,
            (BalanceOrAsset::Asset { amount: a, .. }, BalanceOrAsset::Asset { amount: b, .. }) => a >= b,
            _ => false,
        }
    }

    /// Whether both values are in the same currency.
    pub fn is_same_currency(&self, other: &Self) -> (r: bool)
        ensures
            !self.same_kind(other) ==> !r,
            self is Balance && other is Balance ==> r,
            A::obeys_eq_spec() ==> r == self.same_currency(other),
    {
        match (self, other) {
            (BalanceOrAsset::Balance { .. }, BalanceOrAsset::Balance { .. }) => true,
            (BalanceOrAsset::Asset { id, .. }, BalanceOrAsset::Asset { id: id2, .. }) => id == id2,
            _ => false,
        }
    }
}

impl<B, A, AB> BalanceOrAsset<B, A, AB> {
    /// Converts the amount, whichever kind it is, into `T`.
    pub fn into_amount<T>(self) -> (r: T) where T: From<B>, T: From<AB>
        ensures
            match self {
                BalanceOrAsset::Balance { amount } =>
                    <T as FromSpec<B>>::obeys_from_spec() ==> r == <T as FromSpec<B>>::from_spec(amount),
                BalanceOrAsset::Asset { amount, .. } =>
                    <T as FromSpec<AB>>::obeys_from_spec() ==> r == <T as FromSpec<AB>>::from_spec(amount),
            },
    {
        match self {
            BalanceOrAsset::Balance { amount } => amount.into(),
            BalanceOrAsset::Asset { amount, id: _ } => amount.into(),
        }
    }
}

} // verus!
