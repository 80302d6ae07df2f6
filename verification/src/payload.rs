//! The type-erased drag payload: a reference-counted value carrying a runtime
//! type tag, so that consumers asking for a different type get a clean empty
//! answer instead of someone else's data.

use std::rc::Rc;
use vstd::prelude::*;

verus! {

/// The data carried by a drag. `type_tag` stands for the payload's runtime
/// type: a consumer's query succeeds only when its tag equals the payload's.
/// `data` is the value itself, serialised by whoever started the drag; only
/// code that knows the tag interprets it.
#[derive(PartialEq, Eq, Debug)]
pub struct DragPayload {
    pub type_tag: u64,
    pub data: Vec<u8>,
}

/// Relies on `Rc::clone` (std): returns a new handle to the same allocation,
/// so the shared value is unchanged and nothing is copied.
#[verifier::external_body]
pub fn share_payload(p: &Rc<DragPayload>) -> (r: Rc<DragPayload>)
    ensures
        r == *p,
{
    Rc::clone(p)
}

/// The checked downcast, the only way to look inside a payload: a new shared
/// handle to the same value, handed out exactly when the caller's type tag
/// matches the payload's. There is no unchecked way in.
pub fn try_downcast(p: &Rc<DragPayload>, type_tag: u64) -> (r: Option<Rc<DragPayload>>)
    ensures
        r is Some <==> p.type_tag == type_tag,
        r matches Some(q) ==> q == *p,
{
    if p.type_tag == type_tag {
        Some(share_payload(p))
    } else {
        None
    }
}

} // verus!
