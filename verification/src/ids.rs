//! Discord ids as the database stores them: a 64-bit id in a signed 64-bit column.
use vstd::prelude::*;

verus! {

/// The stored form of an id: the same 64 bits read as a signed number.
pub open spec fn stored_id(id: u64) -> int {
    if id < 0x8000_0000_0000_0000 {
        id as int
    } else {
        id - 0x1_0000_0000_0000_0000
    }
}

/// The id that a stored value holds: the same 64 bits read as an unsigned number.
pub open spec fn loaded_id(value: i64) -> int {
    if value >= 0 {
        value as int
    } else {
        value + 0x1_0000_0000_0000_0000
    }
}

/// The stored form of an id.
pub fn id_to_db(id: u64) -> (value: i64)
    ensures
        value == stored_id(id),
{
    let value: i64 = id as i64;
    assert(value == stored_id(id)) by (bit_vector)
        requires
            value == id as i64,
    ;
    value
}

/// The id that a stored value holds.
pub fn id_from_db(value: i64) -> (id: u64)
    ensures
        id == loaded_id(value),
{
    let id: u64 = value as u64;
    assert(id == loaded_id(value)) by (bit_vector)
        requires
            id == value as u64,
    ;
    id
}

/// An id read back from the database is the id that was stored.
pub proof fn law_id_round_trip(id: u64)
    ensures
        loaded_id(stored_id(id) as i64) == id,
{
}

} // verus!
