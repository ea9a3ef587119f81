//! Parameter metadata: the record type, keyed lookup in a table, and the
//! dispatch from an originating center to the table that answers for it.

use vstd::prelude::*;

use crate::tables::{ecmwf_records, ecmwf_table, wmo_standard_records, wmo_standard_table};

verus! {

/// Metadata of one parameter: its code, a short abbreviation, a descriptive
/// name and the unit of its values.
#[derive(Debug, Clone, Copy)]
pub struct Grib1Parameter {
    pub number: u8,
    pub abbreviation: &'static str,
    pub name: &'static str,
    pub units: &'static str,
}

/// A record built from its four fields.
pub open spec fn param(
    number: u8,
    abbreviation: &'static str,
    name: &'static str,
    units: &'static str,
) -> Grib1Parameter {
    Grib1Parameter { number, abbreviation, name, units }
}

/// Whether some record of `records` carries `code`.
pub open spec fn has_code(records: Seq<Grib1Parameter>, code: u8) -> bool {
    exists|i: int| 0 <= i < records.len() && records[i].number == code
}

/// The record of `records` that carries `code`, if there is one.
pub open spec fn find_code(records: Seq<Grib1Parameter>, code: u8) -> Option<Grib1Parameter> {
    if has_code(records, code) {
        Some(records[choose|i: int| 0 <= i < records.len() && records[i].number == code])
    } else {
        None
    }
}

/// The codes of `records` rise strictly from first to last.
pub open spec fn codes_ascending(records: Seq<Grib1Parameter>) -> bool {
    forall|i: int, j: int| 0 <= i < j < records.len() ==> records[i].number < records[j].number
}

/// Each code rises strictly over the one before it.
pub open spec fn codes_ascending_stepwise(records: Seq<Grib1Parameter>) -> bool {
    forall|i: int| 0 <= i < records.len() - 1 ==> #[trigger] records[i].number < records[i + 1].number
}

/// No two distinct records carry the same code.
pub open spec fn codes_unique(records: Seq<Grib1Parameter>) -> bool {
    forall|i: int, j: int|
        0 <= i < records.len() && 0 <= j < records.len() && i != j ==> records[i].number
            != records[j].number
}

/// Codes that rise at each step rise between any two positions.
pub proof fn lemma_ascending_from_steps(records: Seq<Grib1Parameter>)
    requires
        codes_ascending_stepwise(records),
    ensures
        codes_ascending(records),
    decreases records.len(),
{
    if records.len() > 0 {
        let front = records.drop_last();
        assert(codes_ascending_stepwise(front)) by {
            assert forall|i: int| 0 <= i < front.len() - 1 implies #[trigger] front[i].number
                < front[i + 1].number by {
                assert(front[i] == records[i] && front[i + 1] == records[i + 1]);
            }
        }
        lemma_ascending_from_steps(front);
        assert forall|i: int, j: int| 0 <= i < j < records.len() implies records[i].number
            < records[j].number by {
            assert(front[i] == records[i]);
            if j < records.len() - 1 {
                assert(front[j] == records[j]);
            } else if i < j - 1 {
                assert(front[j - 1] == records[j - 1]);
            }
        }
    }
}

/// Strictly ascending codes are unique.
pub proof fn lemma_ascending_codes_unique(records: Seq<Grib1Parameter>)
    requires
        codes_ascending(records),
    ensures
        codes_unique(records),
{
    assert forall|i: int, j: int|
        0 <= i < records.len() && 0 <= j < records.len() && i != j implies records[i].number
        != records[j].number by {
        if i < j {
            assert(records[i].number < records[j].number);
        } else {
            assert(records[j].number < records[i].number);
        }
    }
}

/// Where codes are unique, the record found for a code is the one at any
/// index that carries it.
pub proof fn lemma_find_at(records: Seq<Grib1Parameter>, k: int)
    requires
        codes_unique(records),
        0 <= k < records.len(),
    ensures
        find_code(records, records[k].number) == Some(records[k]),
{
    let code = records[k].number;
    assert(has_code(records, code));
    let c = choose|i: int| 0 <= i < records.len() && records[i].number == code;
    assert(c == k);
}

/// Looks `code` up in `records` by bisection over their ascending codes.
fn search_records(records: &[Grib1Parameter], code: u8) -> (r: Option<Grib1Parameter>)
    requires
        codes_ascending(records@),
    ensures
        r == find_code(records@, code),
{
    let mut lo: usize = 0;
    let mut hi: usize = records.len();
    while lo < hi
        invariant
            0 <= lo <= hi <= records@.len(),
            codes_ascending(records@),
            forall|i: int| 0 <= i < lo ==> records@[i].number < code,
            forall|i: int| hi <= i < records@.len() ==> records@[i].number > code,
        decreases hi - lo,
    {
        let mid: usize = lo + (hi - lo) / 2;
        let found = records[mid];
        if found.number == code {
            proof {
                lemma_ascending_codes_unique(records@);
                lemma_find_at(records@, mid as int);
            }
            return Some(found);
        } else if found.number < code {
            lo = mid + 1;
        } else {
            hi = mid;
        }
    }
    None
}

/// Looks `parameter` up in the WMO standard table.
pub fn get_wmo_standard_parameter(parameter: u8) -> (r: Option<Grib1Parameter>)
    ensures
        r == find_code(wmo_standard_table(), parameter),
{
    let records = wmo_standard_records();
    proof {
        crate::tables::lemma_wmo_standard_ascending();
    }
    search_records(&records, parameter)
}

/// Looks `parameter` up in the table of ECMWF (center 98).
pub fn get_ecmwf_parameter(parameter: u8) -> (r: Option<Grib1Parameter>)
    ensures
        r == find_code(ecmwf_table(), parameter),
{
    let records = ecmwf_records();
    proof {
        crate::tables::lemma_ecmwf_ascending();
    }
    search_records(&records, parameter)
}

/// Looks `parameter` up for NCEP (center 7), whose entry delegates to the
/// standard table.
pub fn get_ncep_parameter(parameter: u8) -> (r: Option<Grib1Parameter>)
    ensures
        r == find_code(wmo_standard_table(), parameter),
{
    get_wmo_standard_parameter(parameter)
}

/// One of the fixed parameter tables.
#[derive(Debug, Clone, Copy, PartialEq, Eq, Structural)]
pub enum ParameterTable {
    /// The WMO standard table.
    Standard,
    /// The table of ECMWF, which overrides the standard one.
    Ecmwf,
}

/// How a registered center resolves parameters: through a table of its own,
/// or by delegating to the standard table.
#[derive(Debug, Clone, Copy, PartialEq, Eq, Structural)]
pub enum CenterTable {
    Owned(ParameterTable),
    Delegate,
}

/// The identifier of ECMWF.
pub const ECMWF_CENTER: u8 = 98;

/// The identifier of NCEP.
pub const NCEP_CENTER: u8 = 7;

/// The records of a table.
pub open spec fn table_records(table: ParameterTable) -> Seq<Grib1Parameter> {
    match table {
        ParameterTable::Standard => wmo_standard_table(),
        ParameterTable::Ecmwf => ecmwf_table(),
    }
}

/// The registry entry of a center; centers without one delegate.
pub open spec fn center_entry(center_id: u8) -> Option<CenterTable> {
    if center_id == ECMWF_CENTER {
        Some(CenterTable::Owned(ParameterTable::Ecmwf))
    } else if center_id == NCEP_CENTER {
        Some(CenterTable::Delegate)
    } else {
        None
    }
}

/// The table that answers lookups for a center.
pub open spec fn selected_table(center_id: u8) -> ParameterTable {
    match center_entry(center_id) {
        Some(CenterTable::Owned(table)) => table,
        _ => ParameterTable::Standard,
    }
}

/// The metadata of `parameter` as produced by `center_id`: the record of
/// that code in the center's selected table, with no further fallback.
pub open spec fn parameter_of(center_id: u8, parameter: u8) -> Option<Grib1Parameter> {
    find_code(table_records(selected_table(center_id)), parameter)
}

/// The registry entry of `center_id`, if the center is registered.
pub fn center_table(center_id: u8) -> (r: Option<CenterTable>)
    ensures
        r == center_entry(center_id),
{
    if center_id == ECMWF_CENTER {
        Some(CenterTable::Owned(ParameterTable::Ecmwf))
    } else if center_id == NCEP_CENTER {
        Some(CenterTable::Delegate)
    } else {
        None
    }
}

/// The table that answers lookups for `center_id`; every center has one.
pub fn select_table(center_id: u8) -> (r: ParameterTable)
    ensures
        r == selected_table(center_id),
{
    match center_table(center_id) {
        Some(CenterTable::Owned(table)) => table,
        _ => ParameterTable::Standard,
    }
}

/// Looks `parameter` up in `table`.
pub fn lookup_in_table(table: ParameterTable, parameter: u8) -> (r: Option<Grib1Parameter>)
    ensures
        r == find_code(table_records(table), parameter),
{
    match table {
        ParameterTable::Standard => get_wmo_standard_parameter(parameter),
        ParameterTable::Ecmwf => get_ecmwf_parameter(parameter),
    }
}

/// Get parameter information for a given center and parameter number.
pub fn get_parameter(center_id: u8, parameter: u8) -> (r: Option<Grib1Parameter>)
    ensures
        r == parameter_of(center_id, parameter),
        r is Some <==> has_code(table_records(selected_table(center_id)), parameter),
{
    lookup_in_table(select_table(center_id), parameter)
}

/// Within each parameter table, no two distinct records carry the same code.
pub proof fn lemma_table_codes_unique(table: ParameterTable)
    ensures
        codes_unique(table_records(table)),
{
    match table {
        ParameterTable::Standard => crate::tables::lemma_wmo_standard_ascending(),
        ParameterTable::Ecmwf => crate::tables::lemma_ecmwf_ascending(),
    }
    lemma_ascending_codes_unique(table_records(table));
}

/// A lookup that finds a record finds one that carries the requested code.
pub proof fn lemma_found_record_has_code(center_id: u8, parameter: u8)
    ensures
        parameter_of(center_id, parameter) matches Some(r) ==> r.number == parameter,
{
}

/// Every record of the table selected for a center is what a lookup of its
/// code for that center returns.
pub proof fn lemma_present_code_found(center_id: u8, k: int)
    requires
        0 <= k < table_records(selected_table(center_id)).len(),
    ensures
        parameter_of(center_id, table_records(selected_table(center_id))[k].number) == Some(
            table_records(selected_table(center_id))[k],
        ),
{
    lemma_table_codes_unique(selected_table(center_id));
    lemma_find_at(table_records(selected_table(center_id)), k);
}

/// A center other than ECMWF, registered as a delegate or not registered at
/// all, gets the standard table's answer.
pub proof fn lemma_other_centers_use_standard(center_id: u8, parameter: u8)
    requires
        center_id != ECMWF_CENTER,
    ensures
        parameter_of(center_id, parameter) == find_code(wmo_standard_table(), parameter),
{
}

/// A code missing from a center's own table is not found for that center,
/// whatever the standard table holds.
pub proof fn lemma_owned_table_miss_is_final(center_id: u8, parameter: u8)
    requires
        center_entry(center_id) matches Some(CenterTable::Owned(table)) && !has_code(
            table_records(table),
            parameter,
        ),
    ensures
        parameter_of(center_id, parameter) is None,
{
}

/// Parameter lookup depends on its inputs alone: two lookups with the same
/// center and parameter give the same result.
pub proof fn lemma_parameter_lookup_repeatable(
    center_id: u8,
    parameter: u8,
    first: Option<Grib1Parameter>,
    second: Option<Grib1Parameter>,
)
    requires
        first == parameter_of(center_id, parameter),
        second == parameter_of(center_id, parameter),
    ensures
        first == second,
{
}

} // verus!
