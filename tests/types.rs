use dataforge_compute::types::{detect_curve_type, property_id_to_curve_type_code, CurveDataType};

#[test]
fn display_names_and_units() {
    assert_eq!(CurveDataType::GammaRay.display_name(), "Gamma Ray");
    assert_eq!(CurveDataType::PhotoelectricFactor.display_name(), "Photo-electric Factor");
    assert_eq!(CurveDataType::Density.standard_unit(), "g/cm³");
    assert_eq!(CurveDataType::Sonic.standard_unit(), "μs/ft");
    assert_eq!(CurveDataType::Computed.standard_unit(), "");
}

#[test]
fn main_curve_type_codes_ignore_case() {
    assert_eq!(CurveDataType::from_main_curve_type("gr"), CurveDataType::GammaRay);
    assert_eq!(CurveDataType::from_main_curve_type("Rhob"), CurveDataType::Density);
    assert_eq!(CurveDataType::from_main_curve_type("DEPTH"), CurveDataType::Depth);
    assert_eq!(CurveDataType::from_main_curve_type("OTHER"), CurveDataType::Unknown);
}

#[test]
fn property_ids_map_to_codes() {
    assert_eq!(property_id_to_curve_type_code("gamma_ray"), "GR");
    assert_eq!(property_id_to_curve_type_code("shallow_resistivity"), "RT");
    assert_eq!(property_id_to_curve_type_code("shear_slowness"), "DT");
    assert_eq!(property_id_to_curve_type_code("porosity"), "OTHER");
}

#[test]
fn curve_type_detection() {
    assert_eq!(detect_curve_type("xyz", Some("nphi")), CurveDataType::NeutronPorosity);
    assert_eq!(detect_curve_type("gr_corr", None), CurveDataType::GammaRay);
    assert_eq!(detect_curve_type("ILD", None), CurveDataType::Resistivity);
    assert_eq!(detect_curve_type("vsh", None), CurveDataType::Computed);
    assert_eq!(detect_curve_type("sp", None), CurveDataType::SpontaneousPotential);
    assert_eq!(detect_curve_type("abc", None), CurveDataType::Unknown);
}
