use vstd::prelude::*;

use crate::request::{forwarded, has_confirm, Constraint, RequestView};

verus! {

/// A plain key addition reaches the backend as a constrained addition of
/// the same key whose only constraint is `Confirm`.
pub proof fn lemma_add_identity_gets_confirm<I, K, O>(id: I)
    ensures
        forwarded(RequestView::<I, K, O>::AddIdentity(id)) == RequestView::<I, K, O>::AddIdentityConstrained(
            id,
            seq![Constraint::Confirm],
        ),
{
}

/// A constrained addition without `Confirm` reaches the backend with
/// `Confirm` appended after the client's constraints, which keep their
/// order.
pub proof fn lemma_confirm_appended<I, K, O>(id: I, cs: Seq<Constraint<K>>)
    requires
        !has_confirm(cs),
    ensures
        forwarded(RequestView::<I, K, O>::AddIdentityConstrained(id, cs))
            == RequestView::<I, K, O>::AddIdentityConstrained(id, cs.push(Constraint::Confirm)),
{
}

/// A constrained addition that already has `Confirm` reaches the backend
/// as it was sent: no second `Confirm` is added.
pub proof fn lemma_confirm_kept<I, K, O>(id: I, cs: Seq<Constraint<K>>)
    requires
        has_confirm(cs),
    ensures
        forwarded(RequestView::<I, K, O>::AddIdentityConstrained(id, cs))
            == RequestView::<I, K, O>::AddIdentityConstrained(id, cs),
{
}

/// Every request that is not a key addition reaches the backend unchanged.
pub proof fn lemma_other_passes_through<I, K, O>(o: O)
    ensures
        forwarded(RequestView::<I, K, O>::Other(o)) == RequestView::<I, K, O>::Other(o),
{
}

/// Every key addition that reaches the backend requires confirmation, and
/// the constraints that the client sent open its constraint list, in their
/// order.
pub proof fn lemma_forwarded_adds_carry_confirm<I, K, O>(r: RequestView<I, K, O>)
    ensures
        !(forwarded(r) is AddIdentity),
        match forwarded(r) {
            RequestView::AddIdentityConstrained(_, fcs) => has_confirm(fcs),
            _ => true,
        },
        match r {
            RequestView::AddIdentityConstrained(_, cs) => match forwarded(r) {
                RequestView::AddIdentityConstrained(_, fcs) => cs.len() <= fcs.len()
                    && fcs.subrange(0, cs.len() as int) == cs,
                _ => false,
            },
            _ => true,
        },
{
    match r {
        RequestView::AddIdentity(_) => {
            assert(seq![Constraint::<K>::Confirm][0] == Constraint::<K>::Confirm);
        },
        RequestView::AddIdentityConstrained(_, cs) => {
            if !has_confirm(cs) {
                let fcs = cs.push(Constraint::Confirm);
                assert(fcs[cs.len() as int] == Constraint::<K>::Confirm);
                assert(fcs.subrange(0, cs.len() as int) =~= cs);
            } else {
                assert(cs.subrange(0, cs.len() as int) =~= cs);
            }
        },
        RequestView::Other(_) => {},
    }
}

/// Rewriting a request that was already rewritten changes nothing.
pub proof fn lemma_forwarded_idempotent<I, K, O>(r: RequestView<I, K, O>)
    ensures
        forwarded(forwarded(r)) == forwarded(r),
{
    lemma_forwarded_adds_carry_confirm(r);
}

} // verus!
