//! The fixed parameter tables, each in ascending order of code.

use vstd::prelude::*;

use crate::parameters::{
    codes_ascending, codes_ascending_stepwise, lemma_ascending_from_steps, param, Grib1Parameter,
};

verus! {

/// The WMO standard parameter table (Table 2), in ascending order of code.
pub open spec fn wmo_standard_table() -> Seq<Grib1Parameter> {
    seq![
        param(1, "pres", "Pressure", "Pa"),
        param(2, "prmsl", "Pressure reduced to MSL", "Pa"),
        param(7, "gh", "Geopotential height", "gpm"),
        param(11, "t", "Temperature", "K"),
        param(33, "u", "U-component of wind", "m s-1"),
        param(34, "v", "V-component of wind", "m s-1"),
        param(39, "w", "Vertical velocity", "Pa s-1"),
        param(51, "q", "Specific humidity", "kg kg-1"),
        param(52, "r", "Relative humidity", "%"),
        param(61, "tp", "Total precipitation", "kg m-2"),
    ]
}

/// The records of [`wmo_standard_table`], held in an array.
pub fn wmo_standard_records() -> (r: [Grib1Parameter; 10])
    ensures
        r@ == wmo_standard_table(),
{
    let r = [
        Grib1Parameter { number: 1, abbreviation: "pres", name: "Pressure", units: "Pa" },
        Grib1Parameter { number: 2, abbreviation: "prmsl", name: "Pressure reduced to MSL", units: "Pa" },
        Grib1Parameter { number: 7, abbreviation: "gh", name: "Geopotential height", units: "gpm" },
        Grib1Parameter { number: 11, abbreviation: "t", name: "Temperature", units: "K" },
        Grib1Parameter { number: 33, abbreviation: "u", name: "U-component of wind", units: "m s-1" },
        Grib1Parameter { number: 34, abbreviation: "v", name: "V-component of wind", units: "m s-1" },
        Grib1Parameter { number: 39, abbreviation: "w", name: "Vertical velocity", units: "Pa s-1" },
        Grib1Parameter { number: 51, abbreviation: "q", name: "Specific humidity", units: "kg kg-1" },
        Grib1Parameter { number: 52, abbreviation: "r", name: "Relative humidity", units: "%" },
        Grib1Parameter { number: 61, abbreviation: "tp", name: "Total precipitation", units: "kg m-2" },
    ];
    assert(r@ =~= wmo_standard_table());
    r
}

/// The standard table's codes rise strictly.
pub proof fn lemma_wmo_standard_ascending()
    ensures
        codes_ascending(wmo_standard_table()),
{
    assert(codes_ascending_stepwise(wmo_standard_table()));
    lemma_ascending_from_steps(wmo_standard_table());
}

/// The parameter table of ECMWF (center 98), in ascending order of code.
pub open spec fn ecmwf_table() -> Seq<Grib1Parameter> {
    seq![
        param(1, "sp", "Surface pressure", "Pa"),
        param(2, "prmsl", "Pressure reduced to MSL", "Pa"),
        param(11, "t", "Temperature", "K"),
        param(20, "vit", "Visibility", "m"),
        param(22, "clmr", "Mixing ratio", "kg kg-1"),
        param(29, "lvt", "Type of low vegetation", "~"),
        param(31, "ci", "Sea-ice cover", "(0-1)"),
        param(32, "asn", "Snow albedo", "(0-1)"),
        param(33, "rsn", "Snow density", "kg m-3"),
        param(34, "sstk", "Sea surface temperature", "K"),
        param(39, "swvl1", "Volumetric soil water layer 1", "m3 m-3"),
        param(44, "es", "Snow evaporation", "m of water equivalent"),
        param(47, "dsrp", "Direct solar radiation", "W m-2 s"),
        param(49, "10fg", "10 metre wind gust", "m s-1"),
        param(50, "lspf", "Large-scale precipitation fraction", "s"),
        param(51, "q", "Specific humidity", "kg kg-1"),
        param(52, "r", "Relative humidity", "%"),
        param(53, "q", "Humidity mixing ratio", "kg kg-1"),
        param(54, "pwat", "Precipitable water", "kg m-2"),
        param(59, "prate", "Precipitation rate", "kg m-2 s-1"),
        param(61, "tp", "Total precipitation", "m"),
        param(66, "lsff", "Lake shape factor", "dimensionless"),
        param(67, "lmlt", "Lake mix-layer temperature", "K"),
        param(71, "tcc", "Total cloud cover", "%"),
        param(78, "tclw", "Total column cloud liquid water", "kg m-2"),
        param(79, "tciw", "Total column cloud ice water", "kg m-2"),
        param(89, "sunsd", "Sunshine duration", "s"),
        param(121, "mx2t", "Maximum temperature at 2 metres", "K"),
        param(122, "mn2t", "Minimum temperature at 2 metres", "K"),
        param(123, "10fg", "10 metre wind gust", "m s-1"),
        param(124, "emis", "Surface emissivity", "dimensionless"),
        param(125, "veg", "Vegetation fraction", "(0-1)"),
        param(126, "sltyp", "Soil type", "dimensionless"),
        param(127, "cape", "Convective available potential energy", "J kg-1"),
        param(128, "cin", "Convective inhibition", "J kg-1"),
        param(129, "z", "Geopotential", "m2 s-2"),
        param(130, "t", "Temperature", "K"),
        param(131, "u", "U component of wind", "m s-1"),
        param(132, "v", "V component of wind", "m s-1"),
        param(133, "q", "Specific humidity", "kg kg-1"),
        param(134, "sp", "Surface pressure", "Pa"),
        param(135, "w", "Vertical velocity", "Pa s-1"),
        param(136, "tcw", "Total column water", "kg m-2"),
        param(137, "tcwv", "Total column water vapour", "kg m-2"),
        param(139, "stl1", "Soil temperature level 1", "K"),
        param(141, "sd", "Snow depth", "m of water equivalent"),
        param(143, "cp", "Convective precipitation", "m"),
        param(144, "sf", "Snowfall", "m of water equivalent"),
        param(148, "chnk", "Charnock", "dimensionless"),
        param(151, "prmsl", "Pressure reduced to MSL", "Pa"),
        param(157, "r", "Relative humidity", "%"),
        param(159, "blh", "Boundary layer height", "m"),
        param(164, "tcc", "Total cloud cover", "(0-1)"),
        param(165, "u10", "10 metre U wind component", "m s-1"),
        param(166, "v10", "10 metre V wind component", "m s-1"),
        param(167, "t2m", "2 metre temperature", "K"),
        param(168, "d2m", "2 metre dewpoint temperature", "K"),
        param(169, "ssrd", "Surface solar radiation downwards", "J m-2"),
        param(179, "ttr", "Top net thermal radiation", "J m-2"),
        param(186, "lcc", "Low cloud cover", "(0-1)"),
        param(187, "mcc", "Medium cloud cover", "(0-1)"),
        param(188, "hcc", "High cloud cover", "(0-1)"),
        param(213, "vimd", "Vertically integrated moisture divergence", "kg m-2"),
        param(217, "sdwe", "Standard deviation wave height", "m"),
        param(218, "mpww", "Mean wave period based on second moment", "s"),
        param(219, "p1ww", "Mean wave period based on first moment", "s"),
        param(220, "mzww", "Mean zero-crossing wave period", "s"),
        param(221, "ipww", "Mean period of wind waves", "s"),
        param(226, "10ws", "10 metre wind speed", "m s-1"),
        param(228, "tp", "Total precipitation", "m"),
        param(229, "iews", "Instantaneous eastward turbulent surface stress", "N m-2"),
        param(230, "inss", "Instantaneous northward turbulent surface stress", "N m-2"),
        param(231, "ishf", "Instantaneous surface heat flux", "W m-2"),
        param(232, "ie", "Instantaneous moisture flux", "kg m-2 s-1"),
        param(234, "lsrh", "Logarithm of surface roughness length for heat", "dimensionless"),
        param(235, "skt", "Skin temperature", "K"),
        param(236, "stl4", "Soil temperature level 4", "K"),
        param(237, "swvl4", "Volumetric soil water layer 4", "m3 m-3"),
        param(238, "tsn", "Temperature of snow layer", "K"),
        param(239, "csf", "Convective snowfall", "m of water equivalent"),
        param(240, "lsf", "Large-scale snowfall", "m of water equivalent"),
        param(241, "acf", "Accumulated cloud fraction tendency", "(-1 to 1)"),
        param(243, "fal", "Forecast albedo", "(0-1)"),
        param(244, "fsr", "Forecast surface roughness", "m"),
        param(246, "clwc", "Cloud liquid water content", "kg kg-1"),
        param(247, "ciwc", "Cloud ice water content", "kg kg-1"),
    ]
}

/// The records of [`ecmwf_table`], held in an array.
pub fn ecmwf_records() -> (r: [Grib1Parameter; 86])
    ensures
        r@ == ecmwf_table(),
{
    let r = [
        Grib1Parameter { number: 1, abbreviation: "sp", name: "Surface pressure", units: "Pa" },
        Grib1Parameter { number: 2, abbreviation: "prmsl", name: "Pressure reduced to MSL", units: "Pa" },
        Grib1Parameter { number: 11, abbreviation: "t", name: "Temperature", units: "K" },
        Grib1Parameter { number: 20, abbreviation: "vit", name: "Visibility", units: "m" },
        Grib1Parameter { number: 22, abbreviation: "clmr", name: "Mixing ratio", units: "kg kg-1" },
        Grib1Parameter { number: 29, abbreviation: "lvt", name: "Type of low vegetation", units: "~" },
        Grib1Parameter { number: 31, abbreviation: "ci", name: "Sea-ice cover", units: "(0-1)" },
        Grib1Parameter { number: 32, abbreviation: "asn", name: "Snow albedo", units: "(0-1)" },
        Grib1Parameter { number: 33, abbreviation: "rsn", name: "Snow density", units: "kg m-3" },
        Grib1Parameter { number: 34, abbreviation: "sstk", name: "Sea surface temperature", units: "K" },
        Grib1Parameter { number: 39, abbreviation: "swvl1", name: "Volumetric soil water layer 1", units: "m3 m-3" },
        Grib1Parameter { number: 44, abbreviation: "es", name: "Snow evaporation", units: "m of water equivalent" },
        Grib1Parameter { number: 47, abbreviation: "dsrp", name: "Direct solar radiation", units: "W m-2 s" },
        Grib1Parameter { number: 49, abbreviation: "10fg", name: "10 metre wind gust", units: "m s-1" },
        Grib1Parameter { number: 50, abbreviation: "lspf", name: "Large-scale precipitation fraction", units: "s" },
        Grib1Parameter { number: 51, abbreviation: "q", name: "Specific humidity", units: "kg kg-1" },
        Grib1Parameter { number: 52, abbreviation: "r", name: "Relative humidity", units: "%" },
        Grib1Parameter { number: 53, abbreviation: "q", name: "Humidity mixing ratio", units: "kg kg-1" },
        Grib1Parameter { number: 54, abbreviation: "pwat", name: "Precipitable water", units: "kg m-2" },
        Grib1Parameter { number: 59, abbreviation: "prate", name: "Precipitation rate", units: "kg m-2 s-1" },
        Grib1Parameter { number: 61, abbreviation: "tp", name: "Total precipitation", units: "m" },
        Grib1Parameter { number: 66, abbreviation: "lsff", name: "Lake shape factor", units: "dimensionless" },
        Grib1Parameter { number: 67, abbreviation: "lmlt", name: "Lake mix-layer temperature", units: "K" },
        Grib1Parameter { number: 71, abbreviation: "tcc", name: "Total cloud cover", units: "%" },
        Grib1Parameter { number: 78, abbreviation: "tclw", name: "Total column cloud liquid water", units: "kg m-2" },
        Grib1Parameter { number: 79, abbreviation: "tciw", name: "Total column cloud ice water", units: "kg m-2" },
        Grib1Parameter { number: 89, abbreviation: "sunsd", name: "Sunshine duration", units: "s" },
        Grib1Parameter { number: 121, abbreviation: "mx2t", name: "Maximum temperature at 2 metres", units: "K" },
        Grib1Parameter { number: 122, abbreviation: "mn2t", name: "Minimum temperature at 2 metres", units: "K" },
        Grib1Parameter { number: 123, abbreviation: "10fg", name: "10 metre wind gust", units: "m s-1" },
        Grib1Parameter { number: 124, abbreviation: "emis", name: "Surface emissivity", units: "dimensionless" },
        Grib1Parameter { number: 125, abbreviation: "veg", name: "Vegetation fraction", units: "(0-1)" },
        Grib1Parameter { number: 126, abbreviation: "sltyp", name: "Soil type", units: "dimensionless" },
        Grib1Parameter { number: 127, abbreviation: "cape", name: "Convective available potential energy", units: "J kg-1" },
        Grib1Parameter { number: 128, abbreviation: "cin", name: "Convective inhibition", units: "J kg-1" },
        Grib1Parameter { number: 129, abbreviation: "z", name: "Geopotential", units: "m2 s-2" },
        Grib1Parameter { number: 130, abbreviation: "t", name: "Temperature", units: "K" },
        Grib1Parameter { number: 131, abbreviation: "u", name: "U component of wind", units: "m s-1" },
        Grib1Parameter { number: 132, abbreviation: "v", name: "V component of wind", units: "m s-1" },
        Grib1Parameter { number: 133, abbreviation: "q", name: "Specific humidity", units: "kg kg-1" },
        Grib1Parameter { number: 134, abbreviation: "sp", name: "Surface pressure", units: "Pa" },
        Grib1Parameter { number: 135, abbreviation: "w", name: "Vertical velocity", units: "Pa s-1" },
        Grib1Parameter { number: 136, abbreviation: "tcw", name: "Total column water", units: "kg m-2" },
        Grib1Parameter { number: 137, abbreviation: "tcwv", name: "Total column water vapour", units: "kg m-2" },
        Grib1Parameter { number: 139, abbreviation: "stl1", name: "Soil temperature level 1", units: "K" },
        Grib1Parameter { number: 141, abbreviation: "sd", name: "Snow depth", units: "m of water equivalent" },
        Grib1Parameter { number: 143, abbreviation: "cp", name: "Convective precipitation", units: "m" },
        Grib1Parameter { number: 144, abbreviation: "sf", name: "Snowfall", units: "m of water equivalent" },
        Grib1Parameter { number: 148, abbreviation: "chnk", name: "Charnock", units: "dimensionless" },
        Grib1Parameter { number: 151, abbreviation: "prmsl", name: "Pressure reduced to MSL", units: "Pa" },
        Grib1Parameter { number: 157, abbreviation: "r", name: "Relative humidity", units: "%" },
        Grib1Parameter { number: 159, abbreviation: "blh", name: "Boundary layer height", units: "m" },
        Grib1Parameter { number: 164, abbreviation: "tcc", name: "Total cloud cover", units: "(0-1)" },
        Grib1Parameter { number: 165, abbreviation: "u10", name: "10 metre U wind component", units: "m s-1" },
        Grib1Parameter { number: 166, abbreviation: "v10", name: "10 metre V wind component", units: "m s-1" },
        Grib1Parameter { number: 167, abbreviation: "t2m", name: "2 metre temperature", units: "K" },
        Grib1Parameter { number: 168, abbreviation: "d2m", name: "2 metre dewpoint temperature", units: "K" },
        Grib1Parameter { number: 169, abbreviation: "ssrd", name: "Surface solar radiation downwards", units: "J m-2" },
        Grib1Parameter { number: 179, abbreviation: "ttr", name: "Top net thermal radiation", units: "J m-2" },
        Grib1Parameter { number: 186, abbreviation: "lcc", name: "Low cloud cover", units: "(0-1)" },
        Grib1Parameter { number: 187, abbreviation: "mcc", name: "Medium cloud cover", units: "(0-1)" },
        Grib1Parameter { number: 188, abbreviation: "hcc", name: "High cloud cover", units: "(0-1)" },
        Grib1Parameter { number: 213, abbreviation: "vimd", name: "Vertically integrated moisture divergence", units: "kg m-2" },
        Grib1Parameter { number: 217, abbreviation: "sdwe", name: "Standard deviation wave height", units: "m" },
        Grib1Parameter { number: 218, abbreviation: "mpww", name: "Mean wave period based on second moment", units: "s" },
        Grib1Parameter { number: 219, abbreviation: "p1ww", name: "Mean wave period based on first moment", units: "s" },
        Grib1Parameter { number: 220, abbreviation: "mzww", name: "Mean zero-crossing wave period", units: "s" },
        Grib1Parameter { number: 221, abbreviation: "ipww", name: "Mean period of wind waves", units: "s" },
        Grib1Parameter { number: 226, abbreviation: "10ws", name: "10 metre wind speed", units: "m s-1" },
        Grib1Parameter { number: 228, abbreviation: "tp", name: "Total precipitation", units: "m" },
        Grib1Parameter { number: 229, abbreviation: "iews", name: "Instantaneous eastward turbulent surface stress", units: "N m-2" },
        Grib1Parameter { number: 230, abbreviation: "inss", name: "Instantaneous northward turbulent surface stress", units: "N m-2" },
        Grib1Parameter { number: 231, abbreviation: "ishf", name: "Instantaneous surface heat flux", units: "W m-2" },
        Grib1Parameter { number: 232, abbreviation: "ie", name: "Instantaneous moisture flux", units: "kg m-2 s-1" },
        Grib1Parameter { number: 234, abbreviation: "lsrh", name: "Logarithm of surface roughness length for heat", units: "dimensionless" },
        Grib1Parameter { number: 235, abbreviation: "skt", name: "Skin temperature", units: "K" },
        Grib1Parameter { number: 236, abbreviation: "stl4", name: "Soil temperature level 4", units: "K" },
        Grib1Parameter { number: 237, abbreviation: "swvl4", name: "Volumetric soil water layer 4", units: "m3 m-3" },
        Grib1Parameter { number: 238, abbreviation: "tsn", name: "Temperature of snow layer", units: "K" },
        Grib1Parameter { number: 239, abbreviation: "csf", name: "Convective snowfall", units: "m of water equivalent" },
        Grib1Parameter { number: 240, abbreviation: "lsf", name: "Large-scale snowfall", units: "m of water equivalent" },
        Grib1Parameter { number: 241, abbreviation: "acf", name: "Accumulated cloud fraction tendency", units: "(-1 to 1)" },
        Grib1Parameter { number: 243, abbreviation: "fal", name: "Forecast albedo", units: "(0-1)" },
        Grib1Parameter { number: 244, abbreviation: "fsr", name: "Forecast surface roughness", units: "m" },
        Grib1Parameter { number: 246, abbreviation: "clwc", name: "Cloud liquid water content", units: "kg kg-1" },
        Grib1Parameter { number: 247, abbreviation: "ciwc", name: "Cloud ice water content", units: "kg kg-1" },
    ];
    assert(r@ =~= ecmwf_table());
    r
}

/// The ECMWF table's codes rise strictly.
pub proof fn lemma_ecmwf_ascending()
    ensures
        codes_ascending(ecmwf_table()),
{
    assert(codes_ascending_stepwise(ecmwf_table()));
    lemma_ascending_from_steps(ecmwf_table());
}

} // verus!
