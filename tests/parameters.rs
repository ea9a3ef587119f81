use gribberish::level_types::level_type_records;
use gribberish::parameters::{
    center_table, get_ecmwf_parameter, get_ncep_parameter, get_wmo_standard_parameter,
    lookup_in_table, select_table, CenterTable, ParameterTable,
};
use gribberish::tables::{ecmwf_records, wmo_standard_records};
use gribberish::{get_level_type_info, get_parameter, Grib1Parameter};

#[test]
fn test_ecmwf_parameters() {
    let param = get_parameter(98, 11).unwrap();
    assert_eq!(param.abbreviation, "t");
    assert_eq!(param.name, "Temperature");

    let param = get_parameter(98, 131).unwrap();
    assert_eq!(param.abbreviation, "u");
}

#[test]
fn test_level_types() {
    let (name, units) = get_level_type_info(100);
    assert_eq!(name, "isobaric");
    assert_eq!(units, "hPa");

    let (name, _) = get_level_type_info(1);
    assert_eq!(name, "surface");
}

fn fields(p: &Grib1Parameter) -> (u8, &'static str, &'static str, &'static str) {
    (p.number, p.abbreviation, p.name, p.units)
}

#[test]
fn ecmwf_temperature_full_record() {
    let p = get_parameter(98, 11).unwrap();
    assert_eq!(fields(&p), (11, "t", "Temperature", "K"));
}

#[test]
fn ecmwf_overrides_standard_codes() {
    let p = get_parameter(98, 1).unwrap();
    assert_eq!(fields(&p), (1, "sp", "Surface pressure", "Pa"));
    let p = get_parameter(98, 61).unwrap();
    assert_eq!(fields(&p), (61, "tp", "Total precipitation", "m"));
    let p = get_parameter(98, 131).unwrap();
    assert_eq!(fields(&p), (131, "u", "U component of wind", "m s-1"));
}

#[test]
fn ncep_delegates_to_standard() {
    let p = get_parameter(7, 61).unwrap();
    assert_eq!(fields(&p), (61, "tp", "Total precipitation", "kg m-2"));
    let p = get_parameter(7, 1).unwrap();
    assert_eq!(p.abbreviation, "pres");
    assert!(get_parameter(7, 131).is_none());
}

#[test]
fn unknown_center_uses_standard() {
    let p = get_parameter(255, 11).unwrap();
    assert_eq!(p.abbreviation, "t");
    let p = get_parameter(0, 1).unwrap();
    assert_eq!(fields(&p), (1, "pres", "Pressure", "Pa"));
    let p = get_parameter(200, 33).unwrap();
    assert_eq!(fields(&p), (33, "u", "U-component of wind", "m s-1"));
}

#[test]
fn ecmwf_miss_does_not_fall_back() {
    assert!(get_wmo_standard_parameter(7).is_some());
    assert!(get_parameter(98, 7).is_none());
    assert!(get_parameter(98, 0).is_none());
    assert!(get_parameter(98, 255).is_none());
}

#[test]
fn standard_table_misses() {
    assert!(get_parameter(255, 0).is_none());
    assert!(get_parameter(255, 131).is_none());
    assert!(get_parameter(255, 255).is_none());
}

#[test]
fn table_edges_are_found() {
    let p = get_ecmwf_parameter(1).unwrap();
    assert_eq!(p.abbreviation, "sp");
    let p = get_ecmwf_parameter(247).unwrap();
    assert_eq!(fields(&p), (247, "ciwc", "Cloud ice water content", "kg kg-1"));
    let p = get_wmo_standard_parameter(61).unwrap();
    assert_eq!(p.abbreviation, "tp");
    let p = get_ncep_parameter(7).unwrap();
    assert_eq!(fields(&p), (7, "gh", "Geopotential height", "gpm"));
}

#[test]
fn level_type_scenarios() {
    assert_eq!(get_level_type_info(100), ("isobaric", "hPa"));
    assert_eq!(get_level_type_info(1), ("surface", ""));
    assert_eq!(get_level_type_info(250), ("unknown", ""));
    assert_eq!(get_level_type_info(0), ("unknown", ""));
    assert_eq!(get_level_type_info(201), ("entire_ocean", ""));
    assert_eq!(get_level_type_info(109), ("hybrid", "hybrid"));
    assert_eq!(get_level_type_info(255), ("unknown", ""));
}

#[test]
fn lookups_are_repeatable() {
    for center in [0u8, 7, 98, 255] {
        for code in 0..=255u8 {
            let a = get_parameter(center, code).map(|p| fields(&p));
            let b = get_parameter(center, code).map(|p| fields(&p));
            assert_eq!(a, b);
        }
    }
    for code in 0..=255u8 {
        assert_eq!(get_level_type_info(code), get_level_type_info(code));
    }
}

#[test]
fn found_records_carry_requested_code() {
    for center in [0u8, 7, 98, 255] {
        for code in 0..=255u8 {
            if let Some(p) = get_parameter(center, code) {
                assert_eq!(p.number, code);
            }
        }
    }
    for p in ecmwf_records().iter() {
        assert_eq!(get_parameter(98, p.number).map(|q| fields(&q)), Some(fields(p)));
    }
    for p in wmo_standard_records().iter() {
        assert_eq!(get_parameter(7, p.number).map(|q| fields(&q)), Some(fields(p)));
        assert_eq!(get_parameter(42, p.number).map(|q| fields(&q)), Some(fields(p)));
    }
}

#[test]
fn table_codes_are_unique() {
    let ecmwf = ecmwf_records();
    for i in 0..ecmwf.len() {
        for j in 0..ecmwf.len() {
            if i != j {
                assert_ne!(ecmwf[i].number, ecmwf[j].number);
            }
        }
    }
    let standard = wmo_standard_records();
    for i in 0..standard.len() {
        for j in 0..standard.len() {
            if i != j {
                assert_ne!(standard[i].number, standard[j].number);
            }
        }
    }
    let levels = level_type_records();
    for i in 0..levels.len() {
        for j in 0..levels.len() {
            if i != j {
                assert_ne!(levels[i].code, levels[j].code);
            }
        }
    }
    assert_eq!(ecmwf.len(), 86);
    assert_eq!(standard.len(), 10);
    assert_eq!(levels.len(), 18);
}

#[test]
fn dispatch_selects_tables() {
    assert_eq!(center_table(98), Some(CenterTable::Owned(ParameterTable::Ecmwf)));
    assert_eq!(center_table(7), Some(CenterTable::Delegate));
    assert_eq!(center_table(255), None);
    assert_eq!(select_table(98), ParameterTable::Ecmwf);
    assert_eq!(select_table(7), ParameterTable::Standard);
    assert_eq!(select_table(3), ParameterTable::Standard);
    let p = lookup_in_table(ParameterTable::Ecmwf, 34).unwrap();
    assert_eq!(p.abbreviation, "sstk");
    let p = lookup_in_table(ParameterTable::Standard, 34).unwrap();
    assert_eq!(p.abbreviation, "v");
}
