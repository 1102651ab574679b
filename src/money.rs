use vstd::prelude::*;

verus! {

/// A signed amount of money: the tag carries the sign, the amount is never negative.
///
/// Amounts are counted in billionths of the currency unit (nano-euro).
#[derive(Debug, Clone, Copy, PartialEq, Eq, Structural)]
pub enum EnergyBillEntry {
    Credit(u128),
    Debit(u128),
}

impl EnergyBillEntry {
    /// The net amount owed: positive for a debit, negative for a credit.
    pub open spec fn signed(self) -> int {
        match self {
            EnergyBillEntry::Credit(a) => -(a as int),
            EnergyBillEntry::Debit(a) => a as int,
        }
    }

    pub open spec fn magnitude(self) -> int {
        match self {
            EnergyBillEntry::Credit(a) => a as int,
            EnergyBillEntry::Debit(a) => a as int,
        }
    }

    /// Netting rule: equal tags add; opposite tags subtract the smaller amount from the
    /// larger and keep the tag of the strictly larger one, so a tie gives `Debit(0)`.
    pub open spec fn combined(self, rhs: Self) -> Self {
        match (self, rhs) {
            (EnergyBillEntry::Debit(a), EnergyBillEntry::Debit(b)) => EnergyBillEntry::Debit(
                (a + b) as u128,
            ),
            (EnergyBillEntry::Credit(a), EnergyBillEntry::Credit(b)) => EnergyBillEntry::Credit(
                (a + b) as u128,
            ),
            (EnergyBillEntry::Credit(a), EnergyBillEntry::Debit(b)) => if a > b {
                EnergyBillEntry::Credit((a - b) as u128)
            } else {
                EnergyBillEntry::Debit((b - a) as u128)
            },
            (EnergyBillEntry::Debit(a), EnergyBillEntry::Credit(b)) => if b > a {
                EnergyBillEntry::Credit((b - a) as u128)
            } else {
                EnergyBillEntry::Debit((a - b) as u128)
            },
        }
    }

    /// The netted amount fits in the representation.
    pub open spec fn combine_fits(self, rhs: Self) -> bool {
        -(u128::MAX as int) <= self.signed() + rhs.signed() <= u128::MAX as int
    }

    /// Nets two entries against each other.
    pub fn combine(self, rhs: Self) -> (r: Self)
        requires
            self.combine_fits(rhs),
        ensures
            r == self.combined(rhs),
            r.signed() == self.signed() + rhs.signed(),
    {
        match (self, rhs) {
            (EnergyBillEntry::Debit(a), EnergyBillEntry::Debit(b)) => EnergyBillEntry::Debit(a + b),
            (EnergyBillEntry::Credit(a), EnergyBillEntry::Credit(b)) => EnergyBillEntry::Credit(
                a + b,
            ),
            (EnergyBillEntry::Credit(a), EnergyBillEntry::Debit(b)) => {
                if a > b {
                    EnergyBillEntry::Credit(a - b)
                } else {
                    EnergyBillEntry::Debit(b - a)
                }
            },
            (EnergyBillEntry::Debit(a), EnergyBillEntry::Credit(b)) => {
                if b > a {
                    EnergyBillEntry::Credit(b - a)
                } else {
                    EnergyBillEntry::Debit(a - b)
                }
            },
        }
    }
}

/// Netting follows the net amounts: the result stands for the sum of the two.
pub proof fn lemma_combined_is_sum(a: EnergyBillEntry, b: EnergyBillEntry)
    requires
        a.combine_fits(b),
    ensures
        a.combined(b).signed() == a.signed() + b.signed(),
{
}

/// Netting is commutative.
pub proof fn lemma_combine_commutative(a: EnergyBillEntry, b: EnergyBillEntry)
    requires
        a.combine_fits(b),
    ensures
        a.combined(b) == b.combined(a),
{
}

/// Two debits never net to less than either of them, and a credit against a debit of the
/// same amount nets to `Debit(0)`, whichever comes first.
pub proof fn lemma_combine_debits_and_ties(a: u128, b: u128)
    ensures
        (a + b <= u128::MAX) ==> (EnergyBillEntry::Debit(a).combined(EnergyBillEntry::Debit(b))
            matches EnergyBillEntry::Debit(s) && s >= a && s >= b),
        EnergyBillEntry::Credit(a).combined(EnergyBillEntry::Debit(a)) == EnergyBillEntry::Debit(0),
        EnergyBillEntry::Debit(a).combined(EnergyBillEntry::Credit(a)) == EnergyBillEntry::Debit(0),
{
}

} // verus!
