use vstd::prelude::*;
use crate::account::{AccountId, Balance};

verus! {

/// Where an agreement stands in its life.
#[derive(Clone, Copy, Debug, PartialEq, Eq, Structural)]
pub enum AgreementStatus {
    /// Submitted, nothing else has happened yet.
    Initialized,
    /// The buyer has committed the funds.
    Deposited,
    /// At least one party has confirmed a condition.
    Checking,
    /// Every condition was confirmed by both parties and the funds were released.
    Finalized,
}

/// Position of a status in the progression `Initialized`, `Deposited`,
/// `Checking`, `Finalized`.
pub open spec fn status_rank(s: AgreementStatus) -> int {
    match s {
        AgreementStatus::Initialized => 0,
        AgreementStatus::Deposited => 1,
        AgreementStatus::Checking => 2,
        AgreementStatus::Finalized => 3,
    }
}

/// A named condition and the two independent confirmations it needs.
#[derive(Clone, Debug, PartialEq, Eq)]
pub struct Condition {
    condition_name: String,
    condition_check_from_buyer: bool,
    condition_check_from_seller: bool,
}

pub struct ConditionView {
    pub name: Seq<char>,
    pub by_buyer: bool,
    pub by_seller: bool,
}

impl View for Condition {
    type V = ConditionView;

    closed spec fn view(&self) -> ConditionView {
        ConditionView {
            name: self.condition_name@,
            by_buyer: self.condition_check_from_buyer,
            by_seller: self.condition_check_from_seller,
        }
    }
}

/// A condition after `name` was confirmed by the buyer (`by_buyer`) or the seller.
pub open spec fn confirm_condition(c: ConditionView, name: Seq<char>, by_buyer: bool) -> ConditionView {
    if c.name == name {
        if by_buyer {
            ConditionView { name: c.name, by_buyer: true, by_seller: c.by_seller }
        } else {
            ConditionView { name: c.name, by_buyer: c.by_buyer, by_seller: true }
        }
    } else {
        c
    }
}

/// Every condition called `name` confirmed by one party; the others untouched.
pub open spec fn confirm_all_named(conds: Seq<ConditionView>, name: Seq<char>, by_buyer: bool) -> Seq<
    ConditionView,
> {
    Seq::new(conds.len(), |i: int| confirm_condition(conds[i], name, by_buyer))
}

/// Some condition is called `name`.
pub open spec fn has_condition(conds: Seq<ConditionView>, name: Seq<char>) -> bool {
    exists|i: int| 0 <= i < conds.len() && #[trigger] conds[i].name == name
}

/// Every condition carries both confirmations.
pub open spec fn all_confirmed(conds: Seq<ConditionView>) -> bool {
    forall|i: int| 0 <= i < conds.len() ==> (#[trigger] conds[i]).by_buyer && conds[i].by_seller
}

impl Condition {
    /// A condition called `name` that nobody has confirmed yet.
    pub fn new(name: String) -> (r: Condition)
        ensures
            r@ == (ConditionView { name: name@, by_buyer: false, by_seller: false }),
    {
        Condition {
            condition_name: name,
            condition_check_from_buyer: false,
            condition_check_from_seller: false,
        }
    }

    pub fn condition_name(&self) -> (r: &String)
        ensures
            r@ == self@.name,
    {
        &self.condition_name
    }

    pub fn condition_check_from_buyer(&self) -> (r: bool)
        ensures
            r == self@.by_buyer,
    {
        self.condition_check_from_buyer
    }

    pub fn condition_check_from_seller(&self) -> (r: bool)
        ensures
            r == self@.by_seller,
    {
        self.condition_check_from_seller
    }

    /// Whether two conditions have the same name and the same flags.
    pub fn same_as(&self, other: &Condition) -> (r: bool)
        ensures
            r == (self@ == other@),
    {
        self.condition_name == other.condition_name
            && self.condition_check_from_buyer == other.condition_check_from_buyer
            && self.condition_check_from_seller == other.condition_check_from_seller
    }

    /// This condition after a confirmation of `name` by one party.
    fn confirmed(&self, name: &String, by_buyer: bool) -> (r: Condition)
        ensures
            r@ == confirm_condition(self@, name@, by_buyer),
    {
        let same = self.condition_name == *name;
        Condition {
            condition_name: self.condition_name.clone(),
            condition_check_from_buyer: self.condition_check_from_buyer || (same && by_buyer),
            condition_check_from_seller: self.condition_check_from_seller || (same && !by_buyer),
        }
    }
}

/// An agreement between a buyer and a seller.
#[derive(Clone, Debug, PartialEq, Eq)]
pub struct Agreement {
    buyer: AccountId,
    seller: AccountId,
    total_amount: Balance,
    conditions: Vec<Condition>,
    status: AgreementStatus,
}

pub struct AgreementView {
    pub buyer: Seq<u8>,
    pub seller: Seq<u8>,
    pub total_amount: Balance,
    pub conditions: Seq<ConditionView>,
    pub status: AgreementStatus,
}

impl View for Agreement {
    type V = AgreementView;

    closed spec fn view(&self) -> AgreementView {
        AgreementView {
            buyer: self.buyer@,
            seller: self.seller@,
            total_amount: self.total_amount,
            conditions: self.conditions@.map_values(|c: Condition| c@),
            status: self.status,
        }
    }
}

/// The same agreement under another status.
pub open spec fn with_status(a: AgreementView, status: AgreementStatus) -> AgreementView {
    AgreementView {
        buyer: a.buyer,
        seller: a.seller,
        total_amount: a.total_amount,
        conditions: a.conditions,
        status,
    }
}

/// A stored agreement is sound: it has conditions, and it is only finalized
/// with every condition confirmed by both parties.
pub open spec fn agreement_wf(a: AgreementView) -> bool {
    &&& a.conditions.len() > 0
    &&& a.status == AgreementStatus::Finalized ==> all_confirmed(a.conditions)
}

impl Agreement {
    pub(crate) fn build(
        buyer: AccountId,
        seller: AccountId,
        total_amount: Balance,
        conditions: Vec<Condition>,
        status: AgreementStatus,
    ) -> (r: Agreement)
        ensures
            r@ == (AgreementView {
                buyer: buyer@,
                seller: seller@,
                total_amount,
                conditions: conditions@.map_values(|c: Condition| c@),
                status,
            }),
    {
        Agreement { buyer, seller, total_amount, conditions, status }
    }

    pub fn buyer(&self) -> (r: AccountId)
        ensures
            r@ == self@.buyer,
    {
        self.buyer
    }

    pub fn seller(&self) -> (r: AccountId)
        ensures
            r@ == self@.seller,
    {
        self.seller
    }

    pub fn total_amount(&self) -> (r: Balance)
        ensures
            r == self@.total_amount,
    {
        self.total_amount
    }

    pub fn conditions(&self) -> (r: &Vec<Condition>)
        ensures
            r@.map_values(|c: Condition| c@) == self@.conditions,
    {
        &self.conditions
    }

    pub fn status(&self) -> (r: AgreementStatus)
        ensures
            r == self@.status,
    {
        self.status
    }

    /// Whether two agreements have the same parties, amount, conditions and
    /// status.
    pub fn same_as(&self, other: &Agreement) -> (r: bool)
        ensures
            r == (self@ == other@),
    {
        if !self.buyer.same_as(&other.buyer) || !self.seller.same_as(&other.seller)
            || self.total_amount != other.total_amount || self.status != other.status {
            return false;
        }
        if self.conditions.len() != other.conditions.len() {
            assert(self@.conditions.len() != other@.conditions.len());
            return false;
        }
        let ghost mine = self@.conditions;
        let ghost theirs = other@.conditions;
        let mut i: usize = 0;
        while i < self.conditions.len()
            invariant
                0 <= i <= self.conditions@.len(),
                self.conditions@.len() == other.conditions@.len(),
                mine == self.conditions@.map_values(|c: Condition| c@),
                theirs == other.conditions@.map_values(|c: Condition| c@),
                forall|j: int| 0 <= j < i ==> #[trigger] mine[j] == theirs[j],
            decreases self.conditions@.len() - i,
        {
            if !self.conditions[i].same_as(&other.conditions[i]) {
                assert(mine[i as int] != theirs[i as int]);
                return false;
            }
            i = i + 1;
        }
        assert(mine =~= theirs);
        assert(self.buyer@ == other.buyer@);
        true
    }

    /// A copy of this agreement under `status`.
    pub(crate) fn copy_with_status(&self, status: AgreementStatus) -> (r: Agreement)
        ensures
            r@ == with_status(self@, status),
    {
        let mut conditions: Vec<Condition> = Vec::new();
        let mut i: usize = 0;
        while i < self.conditions.len()
            invariant
                0 <= i <= self.conditions@.len(),
                conditions@.len() == i,
                forall|j: int| 0 <= j < i ==> #[trigger] conditions@[j]@ == self.conditions@[j]@,
            decreases self.conditions@.len() - i,
        {
            let c = &self.conditions[i];
            conditions.push(
                Condition {
                    condition_name: c.condition_name.clone(),
                    condition_check_from_buyer: c.condition_check_from_buyer,
                    condition_check_from_seller: c.condition_check_from_seller,
                },
            );
            i = i + 1;
        }
        let r = Agreement::build(self.buyer, self.seller, self.total_amount, conditions, status);
        assert(r@.conditions =~= self@.conditions);
        r
    }

    /// The conditions after `name` was confirmed by one party, and whether
    /// any condition carries that name.
    pub(crate) fn confirm_named(&self, name: &String, by_buyer: bool) -> (r: (Vec<Condition>, bool))
        ensures
            r.0@.map_values(|c: Condition| c@) == confirm_all_named(self@.conditions, name@, by_buyer),
            r.1 == has_condition(self@.conditions, name@),
    {
        let mut conditions: Vec<Condition> = Vec::new();
        let mut found = false;
        let mut i: usize = 0;
        while i < self.conditions.len()
            invariant
                0 <= i <= self.conditions@.len(),
                conditions@.len() == i,
                forall|j: int|
                    0 <= j < i ==> #[trigger] conditions@[j]@ == confirm_condition(
                        self.conditions@[j]@,
                        name@,
                        by_buyer,
                    ),
                found == exists|j: int| 0 <= j < i && #[trigger] self.conditions@[j]@.name == name@,
            decreases self.conditions@.len() - i,
        {
            let c = &self.conditions[i];
            if c.condition_name == *name {
                found = true;
            }
            conditions.push(c.confirmed(name, by_buyer));
            i = i + 1;
        }
        assert(conditions@.map_values(|c: Condition| c@) =~= confirm_all_named(
            self@.conditions,
            name@,
            by_buyer,
        ));
        proof {
            if found {
                let j = choose|j: int| 0 <= j < i && #[trigger] self.conditions@[j]@.name == name@;
                assert(self@.conditions[j].name == name@);
            }
            if has_condition(self@.conditions, name@) {
                let j = choose|j: int|
                    0 <= j < self@.conditions.len() && #[trigger] self@.conditions[j].name == name@;
                assert(self.conditions@[j]@.name == name@);
            }
        }
        (conditions, found)
    }
}

/// The same conditions by name, none of them confirmed.
pub fn unconfirmed(conds: &Vec<Condition>) -> (r: Vec<Condition>)
    ensures
        r@.len() == conds@.len(),
        forall|j: int|
            0 <= j < r@.len() ==> #[trigger] r@[j]@ == (ConditionView {
                name: conds@[j]@.name,
                by_buyer: false,
                by_seller: false,
            }),
{
    let mut fresh: Vec<Condition> = Vec::new();
    let mut i: usize = 0;
    while i < conds.len()
        invariant
            0 <= i <= conds@.len(),
            fresh@.len() == i,
            forall|j: int|
                0 <= j < i ==> #[trigger] fresh@[j]@ == (ConditionView {
                    name: conds@[j]@.name,
                    by_buyer: false,
                    by_seller: false,
                }),
        decreases conds@.len() - i,
    {
        fresh.push(Condition::new(conds[i].condition_name.clone()));
        i = i + 1;
    }
    fresh
}

/// Whether every condition in `conds` carries both confirmations.
pub fn conditions_all_confirmed(conds: &Vec<Condition>) -> (r: bool)
    ensures
        r == all_confirmed(conds@.map_values(|c: Condition| c@)),
{
    let ghost v = conds@.map_values(|c: Condition| c@);
    let mut i: usize = 0;
    while i < conds.len()
        invariant
            0 <= i <= conds@.len(),
            v == conds@.map_values(|c: Condition| c@),
            forall|j: int| 0 <= j < i ==> (#[trigger] v[j]).by_buyer && v[j].by_seller,
        decreases conds@.len() - i,
    {
        assert(v[i as int] == conds@[i as int]@);
        if !conds[i].condition_check_from_buyer || !conds[i].condition_check_from_seller {
            assert(v.len() == conds@.len());
            assert(!(v[i as int].by_buyer && v[i as int].by_seller));
            assert(!all_confirmed(v));
            return false;
        }
        i = i + 1;
    }
    true
}

} // verus!
