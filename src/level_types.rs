//! Names and units of the vertical level types.

use vstd::prelude::*;

verus! {

/// A level type: its code, its name and the unit of its values, empty where
/// the level has none.
#[derive(Debug, Clone, Copy)]
pub struct Grib1LevelType {
    pub code: u8,
    pub name: &'static str,
    pub units: &'static str,
}

/// A record built from its three fields.
pub open spec fn level(code: u8, name: &'static str, units: &'static str) -> Grib1LevelType {
    Grib1LevelType { code, name, units }
}

/// The level types that have a name of their own, in ascending order of code.
pub open spec fn level_type_table() -> Seq<Grib1LevelType> {
    seq![
        level(1, "surface", ""),
        level(2, "cloud_base", ""),
        level(3, "cloud_top", ""),
        level(4, "isotherm_zero", "m"),
        level(100, "isobaric", "hPa"),
        level(102, "mean_sea_level", ""),
        level(103, "fixed_height", "m"),
        level(105, "fixed_height_above_ground", "m"),
        level(106, "sigma", "sigma"),
        level(107, "sigma_height", "sigma"),
        level(108, "sigma_pressure", "sigma"),
        level(109, "hybrid", "hybrid"),
        level(111, "depth_below_surface", "m"),
        level(112, "layer_between_depths", "m"),
        level(113, "isentropic", "K"),
        level(114, "layer_between_isentropic", "K"),
        level(200, "entire_atmosphere", ""),
        level(201, "entire_ocean", ""),
    ]
}

/// The records of [`level_type_table`], held in an array.
pub fn level_type_records() -> (r: [Grib1LevelType; 18])
    ensures
        r@ == level_type_table(),
{
    let r = [
        Grib1LevelType { code: 1, name: "surface", units: "" },
        Grib1LevelType { code: 2, name: "cloud_base", units: "" },
        Grib1LevelType { code: 3, name: "cloud_top", units: "" },
        Grib1LevelType { code: 4, name: "isotherm_zero", units: "m" },
        Grib1LevelType { code: 100, name: "isobaric", units: "hPa" },
        Grib1LevelType { code: 102, name: "mean_sea_level", units: "" },
        Grib1LevelType { code: 103, name: "fixed_height", units: "m" },
        Grib1LevelType { code: 105, name: "fixed_height_above_ground", units: "m" },
        Grib1LevelType { code: 106, name: "sigma", units: "sigma" },
        Grib1LevelType { code: 107, name: "sigma_height", units: "sigma" },
        Grib1LevelType { code: 108, name: "sigma_pressure", units: "sigma" },
        Grib1LevelType { code: 109, name: "hybrid", units: "hybrid" },
        Grib1LevelType { code: 111, name: "depth_below_surface", units: "m" },
        Grib1LevelType { code: 112, name: "layer_between_depths", units: "m" },
        Grib1LevelType { code: 113, name: "isentropic", units: "K" },
        Grib1LevelType { code: 114, name: "layer_between_isentropic", units: "K" },
        Grib1LevelType { code: 200, name: "entire_atmosphere", units: "" },
        Grib1LevelType { code: 201, name: "entire_ocean", units: "" },
    ];
    assert(r@ =~= level_type_table());
    r
}

/// No two distinct level types carry the same code.
pub open spec fn level_codes_unique(records: Seq<Grib1LevelType>) -> bool {
    forall|i: int, j: int|
        0 <= i < records.len() && 0 <= j < records.len() && i != j ==> records[i].code
            != records[j].code
}

/// Whether `code` names a level type of the table.
pub open spec fn is_known_level_type(code: u8) -> bool {
    exists|i: int| 0 <= i < level_type_table().len() && level_type_table()[i].code == code
}

/// The name and unit of level type `code`; a code outside the table has the
/// name "unknown" and no unit.
pub open spec fn level_type_of(code: u8) -> (&'static str, &'static str) {
    if is_known_level_type(code) {
        let e = level_type_table()[choose|i: int|
            0 <= i < level_type_table().len() && level_type_table()[i].code == code];
        (e.name, e.units)
    } else {
        ("unknown", "")
    }
}

/// No two distinct level types of the table carry the same code.
pub proof fn lemma_level_codes_unique()
    ensures
        level_codes_unique(level_type_table()),
{
}

/// Level-type lookup depends on its input alone: two lookups of the same
/// code give the same name and unit.
pub proof fn lemma_level_lookup_repeatable(
    level_type: u8,
    first: (&'static str, &'static str),
    second: (&'static str, &'static str),
)
    requires
        first == level_type_of(level_type),
        second == level_type_of(level_type),
    ensures
        first == second,
{
}

/// Get level type name and units.
pub fn get_level_type_info(level_type: u8) -> (r: (&'static str, &'static str))
    ensures
        r == level_type_of(level_type),
        !is_known_level_type(level_type) ==> r == ("unknown", ""),
{
    let records = level_type_records();
    let mut i: usize = 0;
    while i < records.len()
        invariant
            0 <= i <= records@.len(),
            records@ == level_type_table(),
            forall|k: int| 0 <= k < i ==> records@[k].code != level_type,
        decreases records@.len() - i,
    {
        let e = records[i];
        if e.code == level_type {
            proof {
                lemma_level_codes_unique();
                let c = choose|k: int|
                    0 <= k < level_type_table().len() && level_type_table()[k].code == level_type;
                assert(c == i);
            }
            return (e.name, e.units);
        }
        i = i + 1;
    }
    ("unknown", "")
}

} // verus!
