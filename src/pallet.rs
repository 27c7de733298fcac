use vstd::prelude::*;
use sp_inherents::InherentData;
use crate::inherent::{inherent_byte, inherent_entries, inherent_id, read_inherent_byte};
use crate::origin::{ensure_none, DispatchError, Origin};

verus! {

/// What the module needs to know of the runtime that hosts it.
pub trait Config {
    /// The identity of an account that may sign an extrinsic.
    type AccountId;
}

/// The notifications this module deposits.
#[derive(Clone, Debug, PartialEq, Eq)]
pub enum RawEvent<AccountId> {
    /// The line index was set to the byte; the account slot is unused on the inherent path.
    LineIndexSet(u8, Option<AccountId>),
}

/// The calls this module can dispatch.
#[allow(non_camel_case_types)]
#[derive(Clone, Copy, Debug, PartialEq, Eq, Structural)]
pub enum Call {
    /// Store the byte as the line index.
    set_line_index(u8),
}

/// The state a module exposes: its one storage cell and the events deposited so far.
pub ghost struct PalletState<AccountId> {
    pub line_index: Option<u8>,
    pub events: Seq<RawEvent<AccountId>>,
}

/// The state after `set_line_index(origin, b)`: written and announced when the origin is
/// unsigned, untouched otherwise.
pub open spec fn after_set_line_index<A>(s: PalletState<A>, origin: Origin<A>, b: u8) -> PalletState<A> {
    if origin is Unsigned {
        PalletState { line_index: Some(b), events: s.events.push(RawEvent::LineIndexSet(b, None)) }
    } else {
        s
    }
}

/// The state after dispatching `call` from `origin`.
pub open spec fn after_call<A>(s: PalletState<A>, origin: Origin<A>, call: Call) -> PalletState<A> {
    match call {
        Call::set_line_index(b) => after_set_line_index(s, origin, b),
    }
}

/// The call that the inherent provider makes out of an inherent-data map: one
/// `set_line_index` with the carried byte, or none.
pub open spec fn provided_call(entries: Map<Seq<u8>, Seq<u8>>) -> Option<Call> {
    match inherent_byte(entries) {
        Some(b) => Some(Call::set_line_index(b)),
        None => None,
    }
}

/// The fixed part of the cost of `set_line_index`, before its one storage write.
pub const SET_LINE_INDEX_BASE_WEIGHT: u64 = 10_000;

/// The cost that `set_line_index` declares to its host: the fixed part plus the cost of one
/// storage write, saturating at `u64::MAX`.
pub fn set_line_index_weight(db_write: u64) -> (r: u64)
    ensures
        SET_LINE_INDEX_BASE_WEIGHT + db_write <= u64::MAX ==> r == SET_LINE_INDEX_BASE_WEIGHT + db_write,
        SET_LINE_INDEX_BASE_WEIGHT + db_write > u64::MAX ==> r == u64::MAX,
{
    if db_write <= u64::MAX - SET_LINE_INDEX_BASE_WEIGHT {
        SET_LINE_INDEX_BASE_WEIGHT + db_write
    } else {
        u64::MAX
    }
}

/// The line-index module: its storage cell and the events it has deposited.
pub struct Module<T: Config> {
    line_index: Option<u8>,
    events: Vec<RawEvent<T::AccountId>>,
}

impl<T: Config> View for Module<T> {
    type V = PalletState<T::AccountId>;

    closed spec fn view(&self) -> PalletState<T::AccountId> {
        PalletState { line_index: self.line_index, events: self.events@ }
    }
}

impl<T: Config> Module<T> {
    /// A fresh module: the line index unset, no event deposited.
    pub fn new() -> (r: Self)
        ensures
            r@.line_index is None,
            r@.events.len() == 0,
    {
        Module { line_index: None, events: Vec::new() }
    }

    /// The stored line index.
    pub fn line_index(&self) -> (r: Option<u8>)
        ensures
            r == self@.line_index,
    {
        self.line_index
    }

    /// The events deposited so far, oldest first.
    pub fn events(&self) -> (r: &Vec<RawEvent<T::AccountId>>)
        ensures
            r@ == self@.events,
    {
        &self.events
    }

    /// Stores `line_index` and deposits `LineIndexSet(line_index, None)`. Only the unsigned
    /// origin may do so; any other is refused with `BadOrigin` and changes nothing.
    pub fn set_line_index(&mut self, origin: Origin<T::AccountId>, line_index: u8) -> (r: Result<(), DispatchError>)
        ensures
            r is Ok <==> origin is Unsigned,
            r is Err ==> r->Err_0 == DispatchError::BadOrigin,
            final(self)@ == after_set_line_index(old(self)@, origin, line_index),
            r is Ok ==> final(self)@.line_index == Some(line_index),
            r is Ok ==> final(self)@.events == old(self)@.events.push(RawEvent::LineIndexSet(line_index, None)),
            r is Err ==> final(self)@ == old(self)@,
    {
        match ensure_none(&origin) {
            Ok(()) => {},
            Err(e) => {
                return Err(e);
            },
        }
        self.line_index = Some(line_index);
        self.events.push(RawEvent::LineIndexSet(line_index, None));
        Ok(())
    }

    /// Executes `call` from `origin`.
    pub fn dispatch(&mut self, origin: Origin<T::AccountId>, call: Call) -> (r: Result<(), DispatchError>)
        ensures
            r is Ok <==> origin is Unsigned,
            r is Err ==> r->Err_0 == DispatchError::BadOrigin,
            final(self)@ == after_call(old(self)@, origin, call),
    {
        match call {
            Call::set_line_index(b) => self.set_line_index(origin, b),
        }
    }

    /// The inherent provider: turns the block author's inherent data into at most one call.
    /// A decodable byte under `karaoke0` gives `set_line_index` of it; a missing or
    /// undecodable entry gives no call.
    pub fn create_inherent(data: &InherentData) -> (r: Option<Call>)
        ensures
            r == provided_call(inherent_entries(*data)),
            inherent_entries(*data).contains_key(inherent_id()) && inherent_entries(*data)[inherent_id()].len() > 0
                ==> r == Some(Call::set_line_index(inherent_entries(*data)[inherent_id()][0])),
            !inherent_entries(*data).contains_key(inherent_id()) ==> r is None,
    {
        match read_inherent_byte(data) {
            Some(b) => Some(Call::set_line_index(b)),
            None => None,
        }
    }

    /// One block's inherent step: the call made from the block's inherent data, if any, is
    /// dispatched with the unsigned origin. Returns that call.
    pub fn apply_inherent(&mut self, data: &InherentData) -> (r: Option<Call>)
        ensures
            r == provided_call(inherent_entries(*data)),
            r matches Some(c) ==> final(self)@ == after_call(old(self)@, Origin::Unsigned, c),
            r is None ==> final(self)@ == old(self)@,
    {
        let call = Self::create_inherent(data);
        match call {
            Some(c) => {
                let _ = self.dispatch(Origin::Unsigned, c);
            },
            None => {},
        }
        call
    }
}

} // verus!
