use vstd::prelude::*;
use std::collections::HashMap;
use crate::account::{AccountId, AgreementId, Balance};
use crate::agreement::{
    Agreement, AgreementStatus, AgreementView, Condition, ConditionView, agreement_wf, all_confirmed,
    confirm_all_named, conditions_all_confirmed, has_condition, unconfirmed, with_status,
};

verus! {

broadcast use vstd::std_specs::hash::group_hash_axioms;

/// Why an operation was refused.
#[derive(Clone, Copy, Debug, PartialEq, Eq, Structural)]
pub enum EscrowError {
    /// No agreement is stored under the id.
    AgreementNotFound,
    /// The caller is not a party allowed to perform the operation.
    UnknownCaller,
    /// A deposit was made twice, or with too little value attached.
    CanNotDeposit,
    /// The agreement has no condition of the given name.
    CanNotCheck,
    /// The release transfer to the seller failed.
    CanNotTransfer,
    /// The agreement is finalized and can no longer change.
    AlreadyFinalized,
    /// An agreement was submitted without conditions.
    NoConditions,
}

/// The stored agreements, by id.
pub type Agreements = Map<AgreementId, AgreementView>;

/// A freshly submitted agreement: every condition unconfirmed.
pub open spec fn created(buyer: Seq<u8>, seller: Seq<u8>, total_amount: Balance, conditions: Seq<ConditionView>) -> AgreementView {
    AgreementView {
        buyer,
        seller,
        total_amount,
        conditions: Seq::new(
            conditions.len(),
            |i: int| ConditionView { name: conditions[i].name, by_buyer: false, by_seller: false },
        ),
        status: AgreementStatus::Initialized,
    }
}

/// Store and result after a creation.  A finalized record under `id` is
/// kept and the creation refused; any other record under `id` is replaced.
pub open spec fn create_step(
    m: Agreements,
    id: AgreementId,
    buyer: Seq<u8>,
    seller: Seq<u8>,
    total_amount: Balance,
    conditions: Seq<ConditionView>,
) -> (Agreements, Result<(), EscrowError>) {
    if conditions.len() == 0 {
        (m, Err(EscrowError::NoConditions))
    } else if m.contains_key(id) && m[id].status == AgreementStatus::Finalized {
        (m, Err(EscrowError::AlreadyFinalized))
    } else {
        (m.insert(id, created(buyer, seller, total_amount, conditions)), Ok(()))
    }
}

/// The error a deposit of `value` by `caller` meets, if any, in the order
/// the checks are made.
pub open spec fn deposit_error(m: Agreements, caller: Seq<u8>, id: AgreementId, value: Balance) -> Option<EscrowError> {
    if !m.contains_key(id) {
        Some(EscrowError::AgreementNotFound)
    } else if m[id].status == AgreementStatus::Deposited {
        Some(EscrowError::CanNotDeposit)
    } else if m[id].status == AgreementStatus::Finalized {
        Some(EscrowError::AlreadyFinalized)
    } else if caller != m[id].buyer {
        Some(EscrowError::UnknownCaller)
    } else if value < m[id].total_amount {
        Some(EscrowError::CanNotDeposit)
    } else if m[id].status == AgreementStatus::Checking {
        Some(EscrowError::CanNotDeposit)
    } else {
        None
    }
}

/// Store and result after a deposit.
pub open spec fn deposit_step(m: Agreements, caller: Seq<u8>, id: AgreementId, value: Balance) -> (Agreements, Result<(), EscrowError>) {
    match deposit_error(m, caller, id, value) {
        Some(e) => (m, Err(e)),
        None => (m.insert(id, with_status(m[id], AgreementStatus::Deposited)), Ok(())),
    }
}

/// The error a confirmation of `name` by `caller` meets, if any, in the
/// order the checks are made.
pub open spec fn check_error(m: Agreements, caller: Seq<u8>, id: AgreementId, name: Seq<char>) -> Option<EscrowError> {
    if !m.contains_key(id) {
        Some(EscrowError::AgreementNotFound)
    } else if caller != m[id].buyer && caller != m[id].seller {
        Some(EscrowError::UnknownCaller)
    } else if m[id].status == AgreementStatus::Finalized {
        Some(EscrowError::AlreadyFinalized)
    } else if !has_condition(m[id].conditions, name) {
        Some(EscrowError::CanNotCheck)
    } else {
        None
    }
}

/// The agreement after `caller` confirmed `name`: the buyer's flag when the
/// caller is the buyer, else the seller's, on every condition of that name.
pub open spec fn checked(a: AgreementView, caller: Seq<u8>, name: Seq<char>) -> AgreementView {
    AgreementView {
        buyer: a.buyer,
        seller: a.seller,
        total_amount: a.total_amount,
        conditions: confirm_all_named(a.conditions, name, caller == a.buyer),
        status: AgreementStatus::Checking,
    }
}

/// The confirmation is accepted and leaves every condition confirmed by both
/// parties: the funds are due to the seller.
pub open spec fn release_due(m: Agreements, caller: Seq<u8>, id: AgreementId, name: Seq<char>) -> bool {
    &&& check_error(m, caller, id, name) is None
    &&& all_confirmed(checked(m[id], caller, name).conditions)
}

/// A release: the agreement it seals, the stored record it was made from,
/// and the record it leaves once the transfer has gone through.
pub struct ReleaseView {
    pub agreement_id: AgreementId,
    pub basis: AgreementView,
    pub sealed: AgreementView,
}

/// What a confirmation returns.
pub open spec fn check_outcome(m: Agreements, caller: Seq<u8>, id: AgreementId, name: Seq<char>) -> Result<Option<ReleaseView>, EscrowError> {
    match check_error(m, caller, id, name) {
        Some(e) => Err(e),
        None => if release_due(m, caller, id, name) {
            Ok(Some(ReleaseView {
                agreement_id: id,
                basis: m[id],
                sealed: with_status(checked(m[id], caller, name), AgreementStatus::Finalized),
            }))
        } else {
            Ok(None)
        },
    }
}

/// The store right after a confirmation: updated only when it is accepted
/// and no release is due yet.
pub open spec fn check_state(m: Agreements, caller: Seq<u8>, id: AgreementId, name: Seq<char>) -> Agreements {
    if check_error(m, caller, id, name) is None && !release_due(m, caller, id, name) {
        m.insert(id, checked(m[id], caller, name))
    } else {
        m
    }
}

/// Store and result of a whole confirmation call: the confirmation, and where
/// a release is due, the transfer's outcome `transferred` settled by
/// `finalizing`.  A failed transfer leaves the store as it was.
pub open spec fn check_step(m: Agreements, caller: Seq<u8>, id: AgreementId, name: Seq<char>, transferred: bool) -> (Agreements, Result<(), EscrowError>) {
    match check_error(m, caller, id, name) {
        Some(e) => (m, Err(e)),
        None => if !release_due(m, caller, id, name) {
            (m.insert(id, checked(m[id], caller, name)), Ok(()))
        } else if transferred {
            (m.insert(id, with_status(checked(m[id], caller, name), AgreementStatus::Finalized)), Ok(()))
        } else {
            (m, Err(EscrowError::CanNotTransfer))
        },
    }
}

/// The release was made from the record still stored under its id: nothing
/// has settled, replaced or changed that agreement since.
pub open spec fn release_current(m: Agreements, rel: ReleaseView) -> bool {
    m.contains_key(rel.agreement_id) && m[rel.agreement_id] == rel.basis
}

/// Store and result after settling a release with the transfer's outcome.
/// A release that is no longer current is refused whatever the outcome.
pub open spec fn settle_step(m: Agreements, rel: ReleaseView, transferred: bool) -> (Agreements, Result<(), EscrowError>) {
    if !release_current(m, rel) {
        (m, Err(EscrowError::AlreadyFinalized))
    } else if transferred {
        (m.insert(rel.agreement_id, rel.sealed), Ok(()))
    } else {
        (m, Err(EscrowError::CanNotTransfer))
    }
}

/// What a query returns.
pub open spec fn query(m: Agreements, id: AgreementId) -> Result<AgreementView, EscrowError> {
    if m.contains_key(id) {
        Ok(m[id])
    } else {
        Err(EscrowError::AgreementNotFound)
    }
}

/// Funds that are due to a seller: the agreement, sealed as it will be stored
/// once the transfer has gone through.  Only a confirmation makes one.
pub struct Release {
    agreement_id: AgreementId,
    basis: Agreement,
    sealed: Agreement,
}

impl View for Release {
    type V = ReleaseView;

    closed spec fn view(&self) -> ReleaseView {
        ReleaseView { agreement_id: self.agreement_id, basis: self.basis@, sealed: self.sealed@ }
    }
}

impl Release {
    #[verifier::type_invariant]
    spec fn sound(&self) -> bool {
        &&& agreement_wf(self.sealed@)
        &&& self.sealed@.status == AgreementStatus::Finalized
        &&& self.basis@.status != AgreementStatus::Finalized
    }

    pub fn agreement_id(&self) -> (r: AgreementId)
        ensures
            r == self@.agreement_id,
    {
        self.agreement_id
    }

    /// Who receives the funds.
    pub fn seller(&self) -> (r: AccountId)
        ensures
            r@ == self@.sealed.seller,
    {
        self.sealed.seller()
    }

    /// How much the seller receives.
    pub fn amount(&self) -> (r: Balance)
        ensures
            r == self@.sealed.total_amount,
    {
        self.sealed.total_amount()
    }
}

/// What a confirmation leads to.
pub enum CheckOutcome {
    /// Recorded; some confirmation is still missing.
    Pending,
    /// Every condition is confirmed: transfer the funds, then settle with
    /// `Escrow::finalizing`.
    Release(Release),
}

pub open spec fn outcome_view(r: Result<CheckOutcome, EscrowError>) -> Result<Option<ReleaseView>, EscrowError> {
    match r {
        Ok(CheckOutcome::Pending) => Ok(None),
        Ok(CheckOutcome::Release(rel)) => Ok(Some(rel@)),
        Err(e) => Err(e),
    }
}

/// The escrow engine: the holder account that keeps the funds, and the
/// agreements by id.
pub struct Escrow {
    holder: AccountId,
    agreements: HashMap<AgreementId, Agreement>,
}

impl View for Escrow {
    type V = Agreements;

    closed spec fn view(&self) -> Agreements {
        self.agreements@.map_values(|a: Agreement| a@)
    }
}

impl Escrow {
    /// Every stored agreement is sound.
    pub open spec fn wf(&self) -> bool {
        forall|k: AgreementId| #[trigger] self@.contains_key(k) ==> agreement_wf(self@[k])
    }

    pub closed spec fn holder_view(&self) -> Seq<u8> {
        self.holder@
    }

    /// An engine with no agreements whose funds are kept by `holder`.
    pub fn new(holder: AccountId) -> (r: Escrow)
        ensures
            r@ == Map::<AgreementId, AgreementView>::empty(),
            r.holder_view() == holder@,
            r.wf(),
    {
        let r = Escrow { holder, agreements: HashMap::new() };
        assert(r@ =~= Map::<AgreementId, AgreementView>::empty());
        r
    }

    /// The account that keeps the deposited funds.
    pub fn holder(&self) -> (r: AccountId)
        ensures
            r@ == self.holder_view(),
    {
        self.holder
    }

    /// Stores a new agreement under `agreement_id`, every condition
    /// unconfirmed and the status `Initialized`.  Anyone may create one, and
    /// a record already stored under that id is replaced, unless it is
    /// finalized: a finalized agreement is never changed, and the creation
    /// is refused with `AlreadyFinalized`.  An empty list of conditions is
    /// refused with `NoConditions`.  A refusal stores nothing.
    pub fn create_agreement(
        &mut self,
        agreement_id: AgreementId,
        buyer: AccountId,
        seller: AccountId,
        total_amount: Balance,
        conditions: Vec<Condition>,
    ) -> (r: Result<(), EscrowError>)
        requires
            old(self).wf(),
        ensures
            final(self).wf(),
            final(self).holder_view() == old(self).holder_view(),
            (final(self)@, r) == create_step(
                old(self)@,
                agreement_id,
                buyer@,
                seller@,
                total_amount,
                conditions@.map_values(|c: Condition| c@),
            ),
            r is Ok <==> conditions@.len() > 0 && !(old(self)@.contains_key(agreement_id)
                && old(self)@[agreement_id].status == AgreementStatus::Finalized),
    {
        if conditions.len() == 0 {
            return Err(EscrowError::NoConditions);
        }
        match self.agreements.get(&agreement_id) {
            Some(existing) => {
                if existing.status() == AgreementStatus::Finalized {
                    return Err(EscrowError::AlreadyFinalized);
                }
            },
            None => {},
        }
        let ghost given = conditions@.map_values(|c: Condition| c@);
        let fresh = unconfirmed(&conditions);
        let agreement = Agreement::build(buyer, seller, total_amount, fresh, AgreementStatus::Initialized);
        assert(agreement@ == created(buyer@, seller@, total_amount, given)) by {
            assert(agreement@.conditions =~= created(buyer@, seller@, total_amount, given).conditions);
        }
        assert(agreement_wf(agreement@)) by {
            assert(given.len() == conditions@.len());
        }
        let ghost before = self.agreements@;
        let ghost stored = agreement@;
        self.agreements.insert(agreement_id, agreement);
        proof {
            self.lemma_view_insert(before, agreement_id, agreement);
            assert(self@[agreement_id] == stored);
            assert forall|k: AgreementId| #[trigger] self@.contains_key(k) implies agreement_wf(self@[k]) by {
                if k != agreement_id {
                    assert(old(self)@.contains_key(k));
                }
            }
        }
        Ok(())
    }

    /// The buyer commits `transferred`, the value attached to the call, to
    /// the agreement.  The checks, in order: the agreement must exist
    /// (`AgreementNotFound`), not be deposited already (`CanNotDeposit`) nor
    /// finalized (`AlreadyFinalized`); the caller must be the buyer
    /// (`UnknownCaller`); at least the agreed amount must be attached
    /// (`CanNotDeposit`); and the agreement must not be in `Checking`
    /// (`CanNotDeposit`), since a deposit never moves a status back.
    /// Otherwise the status becomes `Deposited`.  A refusal changes nothing.
    pub fn deposit(&mut self, caller: AccountId, agreement_id: AgreementId, transferred: Balance) -> (r: Result<(), EscrowError>)
        requires
            old(self).wf(),
        ensures
            final(self).wf(),
            final(self).holder_view() == old(self).holder_view(),
            (final(self)@, r) == deposit_step(old(self)@, caller@, agreement_id, transferred),
            r is Ok ==> old(self)@.contains_key(agreement_id) && caller@ == old(self)@[agreement_id].buyer,
    {
        let agreement = match self.agreements.get(&agreement_id) {
            Some(a) => a,
            None => return Err(EscrowError::AgreementNotFound),
        };
        if agreement.status() == AgreementStatus::Deposited {
            return Err(EscrowError::CanNotDeposit);
        }
        if agreement.status() == AgreementStatus::Finalized {
            return Err(EscrowError::AlreadyFinalized);
        }
        if !caller.same_as(&agreement.buyer()) {
            return Err(EscrowError::UnknownCaller);
        }
        if agreement.total_amount() > transferred {
            return Err(EscrowError::CanNotDeposit);
        }
        if agreement.status() == AgreementStatus::Checking {
            return Err(EscrowError::CanNotDeposit);
        }
        let updated = agreement.copy_with_status(AgreementStatus::Deposited);
        let ghost before = self.agreements@;
        self.agreements.insert(agreement_id, updated);
        proof {
            self.lemma_view_insert(before, agreement_id, updated);
        }
        Ok(())
    }

    /// `caller`, the buyer or the seller, confirms every condition called
    /// `condition_name`: the buyer's flag when the caller is the buyer, the
    /// seller's otherwise.  Refused when the agreement is missing, the caller
    /// is neither party, the agreement is finalized, or no condition has that
    /// name; a refusal changes nothing.  Conditions can be confirmed before
    /// any deposit, as the record's status is not consulted beyond
    /// `Finalized`; the agreement is then in `Checking` and no longer takes
    /// a deposit.
    ///
    /// While a confirmation is still missing, the agreement is stored with
    /// the new flags and the status `Checking`, and `Pending` is returned.
    /// Once every condition carries both confirmations, nothing is stored yet:
    /// the returned `Release` names the seller and the amount to transfer,
    /// and `finalizing` settles it with the transfer's outcome.
    pub fn condition_check(&mut self, caller: AccountId, agreement_id: AgreementId, condition_name: String) -> (r: Result<CheckOutcome, EscrowError>)
        requires
            old(self).wf(),
        ensures
            final(self).wf(),
            final(self).holder_view() == old(self).holder_view(),
            final(self)@ == check_state(old(self)@, caller@, agreement_id, condition_name@),
            outcome_view(r) == check_outcome(old(self)@, caller@, agreement_id, condition_name@),
            r is Ok ==> old(self)@.contains_key(agreement_id) && (caller@ == old(self)@[agreement_id].buyer
                || caller@ == old(self)@[agreement_id].seller),
            r matches Ok(CheckOutcome::Release(rel)) ==> all_confirmed(rel@.sealed.conditions)
                && old(self)@[agreement_id].status != AgreementStatus::Finalized,
    {
        let agreement = match self.agreements.get(&agreement_id) {
            Some(a) => a,
            None => return Err(EscrowError::AgreementNotFound),
        };
        let buyer = agreement.buyer();
        let seller = agreement.seller();
        let by_buyer = caller.same_as(&buyer);
        if !by_buyer && !caller.same_as(&seller) {
            return Err(EscrowError::UnknownCaller);
        }
        if agreement.status() == AgreementStatus::Finalized {
            return Err(EscrowError::AlreadyFinalized);
        }
        let (conditions, found) = agreement.confirm_named(&condition_name, by_buyer);
        if !found {
            return Err(EscrowError::CanNotCheck);
        }
        let done = conditions_all_confirmed(&conditions);
        let total_amount = agreement.total_amount();
        let ghost view = self@;
        let ghost next = checked(view[agreement_id], caller@, condition_name@);
        if done {
            let basis = agreement.copy_with_status(agreement.status());
            assert(basis@ =~= view[agreement_id]);
            let sealed = Agreement::build(buyer, seller, total_amount, conditions, AgreementStatus::Finalized);
            assert(sealed@ == with_status(next, AgreementStatus::Finalized));
            Ok(CheckOutcome::Release(Release { agreement_id, basis, sealed }))
        } else {
            let updated = Agreement::build(buyer, seller, total_amount, conditions, AgreementStatus::Checking);
            assert(updated@ == next);
            let ghost before = self.agreements@;
            self.agreements.insert(agreement_id, updated);
            proof {
                self.lemma_view_insert(before, agreement_id, updated);
                assert forall|k: AgreementId| #[trigger] self@.contains_key(k) implies agreement_wf(self@[k]) by {
                    if k != agreement_id {
                        assert(view.contains_key(k));
                    }
                }
            }
            Ok(CheckOutcome::Pending)
        }
    }

    /// Whether `release` was made from the record still stored under its
    /// agreement id, so that settling it can succeed.  A host asks this
    /// before making the transfer.
    pub fn release_is_current(&self, release: &Release) -> (r: bool)
        ensures
            r == release_current(self@, release@),
    {
        match self.agreements.get(&release.agreement_id) {
            Some(a) => a.same_as(&release.basis),
            None => false,
        }
    }

    /// Settles a release with the outcome of its transfer to the seller.
    /// A release whose agreement was finalized, replaced or changed since it
    /// was made is refused with `AlreadyFinalized`.  Otherwise, when
    /// `transferred`, the sealed agreement is stored, finalized; when not,
    /// `CanNotTransfer` is returned.  A refusal changes nothing.
    pub fn finalizing(&mut self, release: Release, transferred: bool) -> (r: Result<(), EscrowError>)
        requires
            old(self).wf(),
        ensures
            final(self).wf(),
            final(self).holder_view() == old(self).holder_view(),
            (final(self)@, r) == settle_step(old(self)@, release@, transferred),
            release@.sealed.status == AgreementStatus::Finalized,
            release@.basis.status != AgreementStatus::Finalized,
    {
        proof {
            use_type_invariant(&release);
        }
        if !self.release_is_current(&release) {
            return Err(EscrowError::AlreadyFinalized);
        }
        if !transferred {
            return Err(EscrowError::CanNotTransfer);
        }
        let ghost view = self@;
        let ghost before = self.agreements@;
        let Release { agreement_id, basis: _, sealed } = release;
        self.agreements.insert(agreement_id, sealed);
        proof {
            self.lemma_view_insert(before, agreement_id, sealed);
            assert forall|k: AgreementId| #[trigger] self@.contains_key(k) implies agreement_wf(self@[k]) by {
                if k != agreement_id {
                    assert(view.contains_key(k));
                }
            }
        }
        Ok(())
    }

    /// The agreement stored under `agreement_id`.  Reads only.
    pub fn get_agreement(&self, agreement_id: AgreementId) -> (r: Result<Agreement, EscrowError>)
        ensures
            r matches Ok(a) ==> query(self@, agreement_id) == Ok::<AgreementView, EscrowError>(a@),
            r matches Err(e) ==> query(self@, agreement_id) == Err::<AgreementView, EscrowError>(e),
            r is Ok <==> self@.contains_key(agreement_id),
    {
        match self.agreements.get(&agreement_id) {
            Some(a) => {
                let copy = a.copy_with_status(a.status());
                proof {
                    assert(copy@ =~= a@);
                }
                Ok(copy)
            },
            None => Err(EscrowError::AgreementNotFound),
        }
    }

    proof fn lemma_view_insert(&self, old_map: Map<AgreementId, Agreement>, id: AgreementId, a: Agreement)
        requires
            self.agreements@ == old_map.insert(id, a),
        ensures
            self@ == old_map.map_values(|x: Agreement| x@).insert(id, a@),
    {
        assert(self@ =~= old_map.map_values(|x: Agreement| x@).insert(id, a@));
    }
}

} // verus!
