use vstd::prelude::*;

verus! {

/// A constraint attached to a key when it is added to the agent. Only
/// `Confirm` (every use of the key needs interactive approval) is looked at;
/// every other kind is carried through as it came.
#[derive(Debug, Clone, PartialEq, Eq)]
pub enum Constraint<K> {
    Confirm,
    Other(K),
}

/// An agent-protocol request, as far as the proxy tells kinds apart.
/// `I` is a key to add, `K` a constraint other than `Confirm`, `O` a request
/// of any other kind.
#[derive(Debug, Clone, PartialEq, Eq)]
pub enum Request<I, K, O> {
    AddIdentity(I),
    AddIdentityConstrained(I, Vec<Constraint<K>>),
    Other(O),
}

/// The mathematical model of a `Request`: constraint lists become sequences.
pub enum RequestView<I, K, O> {
    AddIdentity(I),
    AddIdentityConstrained(I, Seq<Constraint<K>>),
    Other(O),
}

impl<I, K, O> View for Request<I, K, O> {
    type V = RequestView<I, K, O>;

    open spec fn view(&self) -> RequestView<I, K, O> {
        match self {
            Request::AddIdentity(id) => RequestView::AddIdentity(*id),
            Request::AddIdentityConstrained(id, cs) => RequestView::AddIdentityConstrained(*id, cs@),
            Request::Other(o) => RequestView::Other(*o),
        }
    }
}

/// Whether a constraint sequence asks for confirmation somewhere.
pub open spec fn has_confirm<K>(cs: Seq<Constraint<K>>) -> bool {
    exists|i: int| 0 <= i < cs.len() && #[trigger] cs[i] == Constraint::<K>::Confirm
}

/// The constraints that go to the backend: the client's own, with `Confirm`
/// appended at the end unless it is there already.
pub open spec fn with_confirm<K>(cs: Seq<Constraint<K>>) -> Seq<Constraint<K>> {
    if has_confirm(cs) {
        cs
    } else {
        cs.push(Constraint::Confirm)
    }
}

/// The request that the backend is sent in place of `r`.
pub open spec fn forwarded<I, K, O>(r: RequestView<I, K, O>) -> RequestView<I, K, O> {
    match r {
        RequestView::AddIdentity(id) => RequestView::AddIdentityConstrained(
            id,
            seq![Constraint::Confirm],
        ),
        RequestView::AddIdentityConstrained(id, cs) => RequestView::AddIdentityConstrained(
            id,
            with_confirm(cs),
        ),
        RequestView::Other(o) => RequestView::Other(o),
    }
}

/// Whether `cs` holds a `Confirm` constraint.
pub fn contains_confirm<K>(cs: &Vec<Constraint<K>>) -> (r: bool)
    ensures
        r == has_confirm(cs@),
{
    let mut i: usize = 0;
    while i < cs.len()
        invariant
            i <= cs@.len(),
            forall|j: int| 0 <= j < i ==> cs@[j] != Constraint::<K>::Confirm,
        decreases cs@.len() - i,
    {
        if let Constraint::Confirm = &cs[i] {
            return true;
        }
        i = i + 1;
    }
    false
}

/// Rewrites a client request into the one the backend receives: every key
/// addition leaves with a `Confirm` constraint, everything else is unchanged.
pub fn rewrite<I, K, O>(request: Request<I, K, O>) -> (r: Request<I, K, O>)
    ensures
        r@ == forwarded(request@),
{
    match request {
        Request::AddIdentity(id) => {
            let cs = vec![Constraint::Confirm];
            proof {
                assert(cs@ =~= seq![Constraint::<K>::Confirm]);
            }
            Request::AddIdentityConstrained(id, cs)
        },
        Request::AddIdentityConstrained(id, mut cs) => {
            if !contains_confirm(&cs) {
                cs.push(Constraint::Confirm);
            }
            Request::AddIdentityConstrained(id, cs)
        },
        Request::Other(o) => Request::Other(o),
    }
}

} // verus!
