//! What an event subscription hands out.

use vstd::prelude::*;
use crate::cdp::error::LagInfo;

verus! {

/// One item from an event subscription: an event, or word that the
/// subscriber fell behind and events were dropped on its behalf.
pub enum EventItem<E> {
    Event(E),
    Lagged(LagInfo),
}

/// Whether a raw event is one a subscription for `wanted_method` hands
/// out: only events under exactly that method name are.
pub fn is_subscribed_event(raw_method: &str, wanted_method: &str) -> (r: bool)
    ensures
        r == (raw_method@ == wanted_method@),
{
    crate::text::str_eq(raw_method, wanted_method)
}

} // verus!
