use vstd::prelude::*;
use crate::inherent::{inherent_byte, inherent_id};
use crate::origin::Origin;
use crate::pallet::{after_call, after_set_line_index, provided_call, Call, RawEvent, PalletState};

verus! {

/// Making the provider's call out of inherent data and dispatching it leaves the module as
/// writing the carried byte directly does: same line index, same events.
pub proof fn lemma_inherent_round_trip<A>(s: PalletState<A>, entries: Map<Seq<u8>, Seq<u8>>)
    requires
        entries.contains_key(inherent_id()),
        entries[inherent_id()].len() > 0,
    ensures
        provided_call(entries) == Some(Call::set_line_index(entries[inherent_id()][0])),
        after_call(s, Origin::Unsigned, provided_call(entries)->Some_0).line_index
            == after_set_line_index(s, Origin::Unsigned, entries[inherent_id()][0]).line_index,
        after_call(s, Origin::Unsigned, provided_call(entries)->Some_0)
            == after_set_line_index(s, Origin::Unsigned, entries[inherent_id()][0]),
{
    assert(inherent_byte(entries) == Some(entries[inherent_id()][0]));
}

/// Writing the same byte twice from the unsigned origin leaves that byte stored and
/// deposits two identical events.
pub proof fn lemma_same_byte_twice<A>(s: PalletState<A>, b: u8)
    ensures
        after_set_line_index(after_set_line_index(s, Origin::Unsigned, b), Origin::Unsigned, b).line_index
            == Some(b),
        after_set_line_index(after_set_line_index(s, Origin::Unsigned, b), Origin::Unsigned, b).events
            == s.events.push(RawEvent::LineIndexSet(b, None)).push(RawEvent::LineIndexSet(b, None)),
{
}

} // verus!
