use crate::seh::SehUnwinderError;
use vstd::prelude::*;

verus! {

/// One entry of the exception table: the part of a function between the
/// relative addresses `begin_address` (included) and `end_address` (not
/// included), and the relative address of its unwind info.
#[derive(Clone, Copy, Debug, PartialEq, Eq, Default)]
pub struct RuntimeFunction {
    /// Function start address.
    pub begin_address: u32,
    /// Function end address.
    pub end_address: u32,
    /// Unwind info address.
    pub unwind_info_address: u32,
}

/// The little-endian `u32` in the four bytes from `at`.
pub open spec fn u32_le(bytes: Seq<u8>, at: int) -> u32 {
    (bytes[at] + 0x100 * bytes[at + 1] + 0x1_0000 * bytes[at + 2] + 0x100_0000 * bytes[at + 3]) as u32
}

/// The entry in the twelve bytes from `at`.
pub open spec fn runtime_function_at(bytes: Seq<u8>, at: int) -> RuntimeFunction {
    RuntimeFunction {
        begin_address: u32_le(bytes, at),
        end_address: u32_le(bytes, at + 4),
        unwind_info_address: u32_le(bytes, at + 8),
    }
}

/// The entries of an exception table, which is a whole number of records of
/// twelve bytes.
pub open spec fn runtime_functions(exception_data: Seq<u8>) -> Seq<RuntimeFunction> {
    Seq::new((exception_data.len() / 12) as nat, |i: int| runtime_function_at(exception_data, 12 * i))
}

/// `ip` lies in the entry.
pub open spec fn covers(function: RuntimeFunction, ip: u32) -> bool {
    function.begin_address <= ip < function.end_address
}

/// The entries begin in ascending order.
pub open spec fn sorted_by_begin(table: Seq<RuntimeFunction>) -> bool {
    forall|i: int, j: int| 0 <= i <= j < table.len() ==> table[i].begin_address <= table[j].begin_address
}

/// Each entry ends where a later one begins, or before.
pub open spec fn disjoint(table: Seq<RuntimeFunction>) -> bool {
    forall|i: int, j: int| 0 <= i < j < table.len() ==> table[i].end_address <= table[j].begin_address
}

/// `index` is the last entry that begins at `ip` or before it.
pub open spec fn last_at_or_before(table: Seq<RuntimeFunction>, ip: u32, index: int) -> bool {
    &&& 0 <= index < table.len()
    &&& table[index].begin_address <= ip
    &&& forall|j: int| index < j < table.len() ==> table[j].begin_address > ip
}

/// What the lookup returns where `found` is the last entry that begins at
/// `ip` or before it, if there is one.
pub open spec fn covering(found: Option<RuntimeFunction>, ip: u32) -> Result<RuntimeFunction, SehUnwinderError> {
    match found {
        Some(function) if covers(function, ip) => Ok(function),
        _ => Err(SehUnwinderError::UnwindInfoForAddressFailed),
    }
}

/// The exception table as records of twelve bytes, in place.
///
/// Calls `zerocopy::LayoutVerified::new_slice` on the bytes, with arrays of
/// twelve bytes as the elements, and `into_slice` on what it returns. The
/// first returns `None` unless the length is a multiple of the element's size
/// (the element's alignment is 1, so that no address fails). The second hands
/// out the same bytes as a slice of elements.
#[verifier::external_body]
fn runtime_function_records(exception_data: &[u8]) -> (records: Option<&[[u8; 12]]>)
    ensures
        records is Some <==> exception_data@.len() % 12 == 0,
        records matches Some(records) ==> records@.len() * 12 == exception_data@.len(),
        records matches Some(records) ==> forall|i: int, j: int|
            0 <= i < records@.len() && 0 <= j < 12 ==> #[trigger] records@[i]@[j] == exception_data@[12 * i + j],
{
    Some(zerocopy::LayoutVerified::<&[u8], [[u8; 12]]>::new_slice(exception_data)?.into_slice())
}

fn read_u32_le(record: &[u8; 12], at: usize) -> (value: u32)
    requires
        at + 4 <= 12,
    ensures
        value == u32_le(record@, at as int),
{
    let b0 = record[at] as u32;
    let b1 = record[at + 1] as u32;
    let b2 = record[at + 2] as u32;
    let b3 = record[at + 3] as u32;
    b0 + 0x100 * b1 + 0x1_0000 * b2 + 0x100_0000 * b3
}

impl RuntimeFunction {
    /// Decodes one record of the exception table: three little-endian `u32`.
    pub fn from_bytes(record: &[u8; 12]) -> (function: RuntimeFunction)
        ensures
            function == runtime_function_at(record@, 0),
    {
        RuntimeFunction {
            begin_address: read_u32_le(record, 0),
            end_address: read_u32_le(record, 4),
            unwind_info_address: read_u32_le(record, 8),
        }
    }
}

/// `found` is a result of looking up `ip` in the exception table.
///
/// A table that is not a whole number of records is refused, and only such
/// a table. The entry found covers `ip` and stands in the table; otherwise
/// the address is reported as not covered. In a table whose entries begin in
/// ascending order, the last entry that begins at `ip` or before it decides:
/// it is found if it covers `ip`, and nothing is found if it does not or if
/// there is no such entry.
pub open spec fn finds(exception_data: Seq<u8>, ip: u32, found: Result<RuntimeFunction, SehUnwinderError>) -> bool {
    let table = runtime_functions(exception_data);
    &&& exception_data.len() % 12 != 0 <==> found == Err::<RuntimeFunction, SehUnwinderError>(
        SehUnwinderError::InvalidRuntimeFunction,
    )
    &&& found matches Err(e) ==> e == SehUnwinderError::InvalidRuntimeFunction || e
        == SehUnwinderError::UnwindInfoForAddressFailed
    &&& found matches Ok(function) ==> covers(function, ip) && table.contains(function)
    &&& exception_data.len() % 12 == 0 && sorted_by_begin(table) ==> {
        &&& forall|i: int| last_at_or_before(table, ip, i) ==> found == covering(Some(table[i]), ip)
        &&& (forall|i: int| 0 <= i < table.len() ==> table[i].begin_address > ip) ==> found == covering(None, ip)
    }
}

/// Finds the entry of the exception table that covers the relative address
/// `ip`.
///
/// The table is searched by bisection for the last entry that begins at `ip`
/// or before it, which is the only one that can cover `ip` in a table whose
/// entries are sorted and disjoint.
pub fn find_runtime_function(exception_data: &[u8], ip: u32) -> (found: Result<
    RuntimeFunction,
    SehUnwinderError,
>)
    ensures
        finds(exception_data@, ip, found),
{
    let records = match runtime_function_records(exception_data) {
        Some(records) => records,
        None => { return Err(SehUnwinderError::InvalidRuntimeFunction); },
    };
    let ghost table = runtime_functions(exception_data@);
    assert(table.len() == records@.len());
    assert forall|i: int| 0 <= i < table.len() implies RuntimeFunction::decoded(#[trigger] records@[i])
        == table[i] by {
        let record = records@[i]@;
        assert forall|j: int| 0 <= j < 12 implies record[j] == exception_data@[12 * i + j] by {
            assert(records@[i]@[j] == exception_data@[12 * i + j]);
        }
    }
    let mut low: usize = 0;
    let mut high: usize = records.len();
    while low < high
        invariant
            low <= high <= records@.len(),
            table.len() == records@.len(),
            forall|i: int| 0 <= i < table.len() ==> RuntimeFunction::decoded(#[trigger] records@[i]) == table[i],
            sorted_by_begin(table) ==> {
                &&& forall|i: int| 0 <= i < low ==> table[i].begin_address <= ip
                &&& forall|i: int| high <= i < table.len() ==> table[i].begin_address > ip
            },
        decreases high - low,
    {
        let middle = low + (high - low) / 2;
        let function = RuntimeFunction::from_bytes(&records[middle]);
        assert(function == table[middle as int]);
        if function.begin_address <= ip {
            low = middle + 1;
        } else {
            high = middle;
        }
    }
    if low == 0 {
        return Err(SehUnwinderError::UnwindInfoForAddressFailed);
    }
    let function = RuntimeFunction::from_bytes(&records[low - 1]);
    assert(function == table[low - 1]);
    if function.begin_address > ip || function.end_address <= ip {
        return Err(SehUnwinderError::UnwindInfoForAddressFailed);
    }
    Ok(function)
}

impl RuntimeFunction {
    /// The entry that a record of twelve bytes holds.
    pub open spec fn decoded(record: [u8; 12]) -> RuntimeFunction {
        runtime_function_at(record@, 0)
    }
}

/// In a table whose entries are sorted and disjoint, the entry that covers
/// `ip` is the last one that begins at `ip` or before it: the lookup finds
/// an entry that covers `ip` wherever the table holds one.
pub proof fn lemma_covering_entry_is_last(table: Seq<RuntimeFunction>, ip: u32, index: int)
    requires
        sorted_by_begin(table),
        disjoint(table),
        0 <= index < table.len(),
        covers(table[index], ip),
    ensures
        last_at_or_before(table, ip, index),
        covering(Some(table[index]), ip) == Ok::<RuntimeFunction, SehUnwinderError>(table[index]),
{
}

/// The last entry among the first `upto` that begins at `ip` or before it,
/// where none of the later ones does.
proof fn last_entry_at_or_before(table: Seq<RuntimeFunction>, ip: u32, upto: int) -> (last: Option<int>)
    requires
        0 <= upto <= table.len(),
        forall|j: int| upto <= j < table.len() ==> table[j].begin_address > ip,
    ensures
        match last {
            Some(index) => last_at_or_before(table, ip, index),
            None => forall|j: int| 0 <= j < table.len() ==> table[j].begin_address > ip,
        },
    decreases upto,
{
    if upto == 0 {
        None
    } else if table[upto - 1].begin_address <= ip {
        Some(upto - 1)
    } else {
        last_entry_at_or_before(table, ip, upto - 1)
    }
}

/// In a table whose entries begin in ascending order, the lookup has one
/// result.
pub proof fn lemma_lookup_is_determined(
    exception_data: Seq<u8>,
    ip: u32,
    first: Result<RuntimeFunction, SehUnwinderError>,
    second: Result<RuntimeFunction, SehUnwinderError>,
)
    requires
        sorted_by_begin(runtime_functions(exception_data)),
        finds(exception_data, ip, first),
        finds(exception_data, ip, second),
    ensures
        first == second,
{
    if exception_data.len() % 12 == 0 {
        let table = runtime_functions(exception_data);
        match last_entry_at_or_before(table, ip, table.len() as int) {
            Some(index) => {
                assert(first == covering(Some(table[index]), ip));
                assert(second == covering(Some(table[index]), ip));
            },
            None => {},
        }
    }
}

} // verus!
