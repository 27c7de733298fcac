use vstd::prelude::*;
use sp_inherents::InherentData;

verus! {

#[verifier::external_type_specification]
#[verifier::external_body]
pub struct ExInherentData(InherentData);

#[verifier::external_type_specification]
#[verifier::external_body]
pub struct ExInherentError(sp_inherents::Error);

/// What an inherent-data map holds: each 8-byte identifier with its encoded payload.
pub uninterp spec fn inherent_entries(data: InherentData) -> Map<Seq<u8>, Seq<u8>>;

/// The identifier under which a block author places the line index: `karaoke0` in ASCII.
pub const INHERENT_IDENTIFIER: [u8; 8] = [107u8, 97u8, 114u8, 97u8, 111u8, 107u8, 101u8, 48u8];

/// The identifier `karaoke0` as a sequence of bytes.
pub open spec fn inherent_id() -> Seq<u8> {
    seq![107u8, 97u8, 114u8, 97u8, 111u8, 107u8, 101u8, 48u8]
}

/// The byte that an inherent-data map carries for this module: the entry under the
/// identifier, decoded as a single raw byte. `None` when the entry is absent, or empty and
/// so not decodable.
pub open spec fn inherent_byte(entries: Map<Seq<u8>, Seq<u8>>) -> Option<u8> {
    if entries.contains_key(inherent_id()) && entries[inherent_id()].len() > 0 {
        Some(entries[inherent_id()][0])
    } else {
        None
    }
}

/// Relies on `InherentData::get_data::<u8>`: the entry under `id` is looked up and its
/// first byte read as a SCALE-encoded `u8`; an empty entry does not decode.
#[verifier::external_body]
fn get_byte(data: &InherentData, id: &[u8; 8]) -> (r: Result<Option<u8>, sp_inherents::Error>)
    ensures
        !inherent_entries(*data).contains_key(id@) ==> r is Ok && r->Ok_0 is None,
        inherent_entries(*data).contains_key(id@) && inherent_entries(*data)[id@].len() > 0
            ==> r is Ok && r->Ok_0 == Some(inherent_entries(*data)[id@][0]),
        inherent_entries(*data).contains_key(id@) && inherent_entries(*data)[id@].len() == 0
            ==> r is Err,
{
    data.get_data::<u8>(id)
}

/// Reads the module's byte out of the inherent data. A missing entry and one that does not
/// decode both give `None`.
pub fn read_inherent_byte(data: &InherentData) -> (r: Option<u8>)
    ensures
        r == inherent_byte(inherent_entries(*data)),
{
    let id: [u8; 8] = INHERENT_IDENTIFIER;
    assert(id@ =~= inherent_id());
    match get_byte(data, &id) {
        Ok(v) => v,
        Err(_) => None,
    }
}

} // verus!
