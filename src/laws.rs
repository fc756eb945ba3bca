use vstd::prelude::*;
use crate::account::{AgreementId, Balance};
use crate::agreement::{AgreementStatus, ConditionView, all_confirmed, status_rank};
use crate::escrow::{
    Agreements, EscrowError, ReleaseView, check_outcome, check_state, check_step, checked, create_step,
    deposit_step, release_current, release_due, settle_step,
};

verus! {

/// `after` keeps every agreement of `before`, moves no status back along
/// `Initialized`, `Deposited`, `Checking`, `Finalized`, and leaves every
/// finalized agreement exactly as it was.
pub open spec fn advances(before: Agreements, after: Agreements) -> bool {
    forall|k: AgreementId| #[trigger] before.contains_key(k) ==> {
        &&& after.contains_key(k)
        &&& status_rank(before[k].status) <= status_rank(after[k].status)
        &&& before[k].status == AgreementStatus::Finalized ==> after[k] == before[k]
    }
}

/// Creating an agreement under a fresh id, or under the id of a finalized
/// agreement (which is refused), leaves every stored agreement as it was.
/// (Creation under the id of a live agreement replaces that record.)
pub proof fn lemma_create_advances(
    m: Agreements,
    id: AgreementId,
    buyer: Seq<u8>,
    seller: Seq<u8>,
    total_amount: Balance,
    conditions: Seq<ConditionView>,
)
    requires
        m.contains_key(id) ==> m[id].status == AgreementStatus::Finalized,
    ensures
        advances(m, create_step(m, id, buyer, seller, total_amount, conditions).0),
{
}

/// No creation changes a finalized agreement.
pub proof fn lemma_create_keeps_finalized(
    m: Agreements,
    id: AgreementId,
    buyer: Seq<u8>,
    seller: Seq<u8>,
    total_amount: Balance,
    conditions: Seq<ConditionView>,
    k: AgreementId,
)
    requires
        m.contains_key(k),
        m[k].status == AgreementStatus::Finalized,
    ensures
        create_step(m, id, buyer, seller, total_amount, conditions).0.contains_key(k),
        create_step(m, id, buyer, seller, total_amount, conditions).0[k] == m[k],
{
}

/// A deposit moves no status back and leaves a finalized agreement alone.
pub proof fn lemma_deposit_advances(m: Agreements, caller: Seq<u8>, id: AgreementId, value: Balance)
    ensures
        advances(m, deposit_step(m, caller, id, value).0),
{
}

/// A confirmation call, whatever the transfer's outcome, moves no status back
/// and leaves a finalized agreement alone.
pub proof fn lemma_check_advances(m: Agreements, caller: Seq<u8>, id: AgreementId, name: Seq<char>, transferred: bool)
    ensures
        advances(m, check_step(m, caller, id, name, transferred).0),
{
}

/// A confirmation call is `condition_check` followed, where a release is due,
/// by `finalizing` with the transfer's outcome.
pub proof fn lemma_check_step_composes(m: Agreements, caller: Seq<u8>, id: AgreementId, name: Seq<char>, transferred: bool)
    ensures
        check_outcome(m, caller, id, name) matches Err(e) ==> check_state(m, caller, id, name) == m
            && check_step(m, caller, id, name, transferred) == (m, Err::<(), EscrowError>(e)),
        check_outcome(m, caller, id, name) matches Ok(None) ==> check_step(m, caller, id, name, transferred)
            == (check_state(m, caller, id, name), Ok::<(), EscrowError>(())),
        check_outcome(m, caller, id, name) matches Ok(Some(rel)) ==> check_state(m, caller, id, name) == m
            && release_current(m, rel) && check_step(m, caller, id, name, transferred) == settle_step(
            m,
            rel,
            transferred,
        ),
{
}

/// Settling a release moves no status back and leaves a finalized agreement
/// alone.
pub proof fn lemma_settle_advances(m: Agreements, rel: ReleaseView, transferred: bool)
    requires
        rel.sealed.status == AgreementStatus::Finalized,
        rel.basis.status != AgreementStatus::Finalized,
    ensures
        advances(m, settle_step(m, rel, transferred).0),
{
}

/// A release is settled at most once: once it went through, the same
/// release is refused, and so is any release of an agreement that is
/// finalized.
pub proof fn lemma_release_settles_once(m: Agreements, rel: ReleaseView, other: ReleaseView, transferred: bool)
    requires
        rel.sealed.status == AgreementStatus::Finalized,
        rel.basis.status != AgreementStatus::Finalized,
        other.agreement_id == rel.agreement_id,
        other.basis.status != AgreementStatus::Finalized,
    ensures
        settle_step(m, rel, true).1 is Ok ==> settle_step(settle_step(m, rel, true).0, other, transferred) == (
            settle_step(m, rel, true).0,
            Err::<(), EscrowError>(EscrowError::AlreadyFinalized),
        ),
        m.contains_key(rel.agreement_id) && m[rel.agreement_id].status == AgreementStatus::Finalized
            ==> settle_step(m, rel, transferred) == (m, Err::<(), EscrowError>(EscrowError::AlreadyFinalized)),
{
}

/// Funds are released only for an agreement that is not yet finalized, with
/// every condition confirmed by both parties; once the release went through
/// the agreement is finalized, and no later deposit or confirmation releases
/// it again.
pub proof fn lemma_single_release(
    m: Agreements,
    caller: Seq<u8>,
    id: AgreementId,
    name: Seq<char>,
    later_caller: Seq<u8>,
    later_name: Seq<char>,
    later_value: Balance,
)
    requires
        release_due(m, caller, id, name),
    ensures
        m[id].status != AgreementStatus::Finalized,
        all_confirmed(checked(m[id], caller, name).conditions),
        check_step(m, caller, id, name, true).0[id].status == AgreementStatus::Finalized,
        !release_due(check_step(m, caller, id, name, true).0, later_caller, id, later_name),
        !release_due(
            deposit_step(check_step(m, caller, id, name, true).0, later_caller, id, later_value).0,
            later_caller,
            id,
            later_name,
        ),
{
}

/// No confirmation releases a finalized agreement, and none changes it.
pub proof fn lemma_finalized_is_closed(m: Agreements, caller: Seq<u8>, id: AgreementId, name: Seq<char>, transferred: bool)
    requires
        m.contains_key(id),
        m[id].status == AgreementStatus::Finalized,
    ensures
        !release_due(m, caller, id, name),
        check_step(m, caller, id, name, transferred).0 == m,
{
}

/// A deposit succeeds only for the buyer; a confirmation only for the buyer
/// or the seller.
pub proof fn lemma_authorization(
    m: Agreements,
    caller: Seq<u8>,
    id: AgreementId,
    value: Balance,
    name: Seq<char>,
    transferred: bool,
)
    ensures
        deposit_step(m, caller, id, value).1 is Ok ==> m.contains_key(id) && caller == m[id].buyer,
        check_step(m, caller, id, name, transferred).1 is Ok ==> m.contains_key(id) && (caller
            == m[id].buyer || caller == m[id].seller),
{
}

} // verus!
