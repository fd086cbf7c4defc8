//! Curve classification, UDF metadata and provenance value types.

use vstd::prelude::*;
use crate::text::{contains_text, occurs_in, same_text, to_upper, upper_of};

verus! {

/// Domain classification of a well-log curve.
#[derive(Debug, Clone, Copy, PartialEq, Eq, Hash, Structural)]
pub enum CurveDataType {
    /// Gamma Ray: natural radioactivity.
    GammaRay,
    /// Bulk Density.
    Density,
    /// Neutron Porosity.
    NeutronPorosity,
    /// Resistivity.
    Resistivity,
    /// Caliper: borehole diameter.
    Caliper,
    /// Sonic: acoustic travel time.
    Sonic,
    /// Spontaneous Potential.
    SpontaneousPotential,
    /// Photo-electric Factor.
    PhotoelectricFactor,
    /// Depth index curve.
    Depth,
    /// Curve derived by a UDF.
    Computed,
    /// Unmapped curve type.
    Unknown,
}

/// Curve type named by a main-curve-type code, already upper-cased.
pub open spec fn type_of_code(code: Seq<char>) -> CurveDataType {
    if code == "GR"@ {
        CurveDataType::GammaRay
    } else if code == "RHOB"@ {
        CurveDataType::Density
    } else if code == "NPHI"@ {
        CurveDataType::NeutronPorosity
    } else if code == "RT"@ {
        CurveDataType::Resistivity
    } else if code == "CALI"@ {
        CurveDataType::Caliper
    } else if code == "DT"@ {
        CurveDataType::Sonic
    } else if code == "SP"@ {
        CurveDataType::SpontaneousPotential
    } else if code == "PE"@ {
        CurveDataType::PhotoelectricFactor
    } else if code == "DEPTH"@ {
        CurveDataType::Depth
    } else {
        CurveDataType::Unknown
    }
}

/// Curve type guessed from an upper-cased mnemonic, by the first keyword it
/// contains.
pub open spec fn type_of_mnemonic(u: Seq<char>) -> CurveDataType {
    if occurs_in(u, "GR"@) || occurs_in(u, "GAMMA"@) {
        CurveDataType::GammaRay
    } else if occurs_in(u, "RHOB"@) || occurs_in(u, "DENSITY"@) {
        CurveDataType::Density
    } else if occurs_in(u, "NPHI"@) || occurs_in(u, "NEUTRON"@) {
        CurveDataType::NeutronPorosity
    } else if occurs_in(u, "RT"@) || occurs_in(u, "RES"@) || occurs_in(u, "ILD"@) {
        CurveDataType::Resistivity
    } else if occurs_in(u, "CALI"@) || occurs_in(u, "CALIPER"@) {
        CurveDataType::Caliper
    } else if occurs_in(u, "DT"@) || occurs_in(u, "SONIC"@) {
        CurveDataType::Sonic
    } else if occurs_in(u, "SP"@) {
        CurveDataType::SpontaneousPotential
    } else if occurs_in(u, "PE"@) || occurs_in(u, "PHOTO"@) {
        CurveDataType::PhotoelectricFactor
    } else if occurs_in(u, "DEPTH"@) {
        CurveDataType::Depth
    } else if occurs_in(u, "VSH"@) || occurs_in(u, "PHI"@) || occurs_in(u, "SW"@) {
        CurveDataType::Computed
    } else {
        CurveDataType::Unknown
    }
}

/// Main-curve-type code of a property id of the metadata store.
pub open spec fn code_of_property(p: Seq<char>) -> Seq<char> {
    if p == "gamma_ray"@ {
        "GR"@
    } else if p == "bulk_density"@ {
        "RHOB"@
    } else if p == "neutron_porosity"@ {
        "NPHI"@
    } else if p == "deep_resistivity"@ || p == "medium_resistivity"@ || p == "shallow_resistivity"@ {
        "RT"@
    } else if p == "caliper"@ {
        "CALI"@
    } else if p == "compressional_slowness"@ || p == "shear_slowness"@ {
        "DT"@
    } else if p == "spontaneous_potential"@ {
        "SP"@
    } else if p == "photoelectric"@ {
        "PE"@
    } else if p == "depth"@ {
        "DEPTH"@
    } else {
        "OTHER"@
    }
}

impl CurveDataType {
    /// Display name of each classification.
    pub open spec fn spec_display_name(self) -> Seq<char> {
        match self {
            CurveDataType::GammaRay => "Gamma Ray"@,
            CurveDataType::Density => "Bulk Density"@,
            CurveDataType::NeutronPorosity => "Neutron Porosity"@,
            CurveDataType::Resistivity => "Resistivity"@,
            CurveDataType::Caliper => "Caliper"@,
            CurveDataType::Sonic => "Sonic"@,
            CurveDataType::SpontaneousPotential => "Spontaneous Potential"@,
            CurveDataType::PhotoelectricFactor => "Photo-electric Factor"@,
            CurveDataType::Depth => "Depth"@,
            CurveDataType::Computed => "Computed"@,
            CurveDataType::Unknown => "Unknown"@,
        }
    }

    /// Standard unit of each classification.
    pub open spec fn spec_standard_unit(self) -> Seq<char> {
        match self {
            CurveDataType::GammaRay => "gAPI"@,
            CurveDataType::Density => "g/cm³"@,
            CurveDataType::NeutronPorosity => "v/v"@,
            CurveDataType::Resistivity => "ohm-m"@,
            CurveDataType::Caliper => "in"@,
            CurveDataType::Sonic => "μs/ft"@,
            CurveDataType::SpontaneousPotential => "mV"@,
            CurveDataType::PhotoelectricFactor => "b/e"@,
            CurveDataType::Depth => "m"@,
            CurveDataType::Computed => ""@,
            CurveDataType::Unknown => ""@,
        }
    }

    /// Display name for this curve type.
    pub fn display_name(&self) -> (r: &'static str)
        ensures
            r@ == self.spec_display_name(),
    {
        match self {
            CurveDataType::GammaRay => "Gamma Ray",
            CurveDataType::Density => "Bulk Density",
            CurveDataType::NeutronPorosity => "Neutron Porosity",
            CurveDataType::Resistivity => "Resistivity",
            CurveDataType::Caliper => "Caliper",
            CurveDataType::Sonic => "Sonic",
            CurveDataType::SpontaneousPotential => "Spontaneous Potential",
            CurveDataType::PhotoelectricFactor => "Photo-electric Factor",
            CurveDataType::Depth => "Depth",
            CurveDataType::Computed => "Computed",
            CurveDataType::Unknown => "Unknown",
        }
    }

    /// Standard unit for this curve type.
    pub fn standard_unit(&self) -> (r: &'static str)
        ensures
            r@ == self.spec_standard_unit(),
    {
        match self {
            CurveDataType::GammaRay => "gAPI",
            CurveDataType::Density => "g/cm³",
            CurveDataType::NeutronPorosity => "v/v",
            CurveDataType::Resistivity => "ohm-m",
            CurveDataType::Caliper => "in",
            CurveDataType::Sonic => "μs/ft",
            CurveDataType::SpontaneousPotential => "mV",
            CurveDataType::PhotoelectricFactor => "b/e",
            CurveDataType::Depth => "m",
            CurveDataType::Computed => "",
            CurveDataType::Unknown => "",
        }
    }

    /// Classification named by a main-curve-type code, case-insensitively.
    pub fn from_main_curve_type(mct: &str) -> (r: CurveDataType)
        ensures
            r == type_of_code(upper_of(mct@)),
    {
        let upper = to_upper(mct);
        let u = upper.as_str();
        if same_text(u, "GR") {
            CurveDataType::GammaRay
        } else if same_text(u, "RHOB") {
            CurveDataType::Density
        } else if same_text(u, "NPHI") {
            CurveDataType::NeutronPorosity
        } else if same_text(u, "RT") {
            CurveDataType::Resistivity
        } else if same_text(u, "CALI") {
            CurveDataType::Caliper
        } else if same_text(u, "DT") {
            CurveDataType::Sonic
        } else if same_text(u, "SP") {
            CurveDataType::SpontaneousPotential
        } else if same_text(u, "PE") {
            CurveDataType::PhotoelectricFactor
        } else if same_text(u, "DEPTH") {
            CurveDataType::Depth
        } else {
            CurveDataType::Unknown
        }
    }
}

/// Main-curve-type code for a property id of the metadata store
/// (`"gamma_ray"` gives `"GR"`; an unmapped id gives `"OTHER"`).
pub fn property_id_to_curve_type_code(property_id: &str) -> (r: String)
    ensures
        r@ == code_of_property(property_id@),
{
    let p = property_id;
    let code = if same_text(p, "gamma_ray") {
        "GR"
    } else if same_text(p, "bulk_density") {
        "RHOB"
    } else if same_text(p, "neutron_porosity") {
        "NPHI"
    } else if same_text(p, "deep_resistivity") || same_text(p, "medium_resistivity") || same_text(p, "shallow_resistivity") {
        "RT"
    } else if same_text(p, "caliper") {
        "CALI"
    } else if same_text(p, "compressional_slowness") || same_text(p, "shear_slowness") {
        "DT"
    } else if same_text(p, "spontaneous_potential") {
        "SP"
    } else if same_text(p, "photoelectric") {
        "PE"
    } else if same_text(p, "depth") {
        "DEPTH"
    } else {
        "OTHER"
    };
    code.to_owned()
}

/// Classification of a curve: from its stored main-curve-type code when there
/// is one, else guessed from keywords in its mnemonic.
pub fn detect_curve_type(mnemonic: &str, main_curve_type: Option<&str>) -> (r: CurveDataType)
    ensures
        r == match main_curve_type {
            Some(m) => type_of_code(upper_of(m@)),
            None => type_of_mnemonic(upper_of(mnemonic@)),
        },
{
    if let Some(mct) = main_curve_type {
        return CurveDataType::from_main_curve_type(mct);
    }
    let upper = to_upper(mnemonic);
    let u = upper.as_str();
    if contains_text(u, "GR") || contains_text(u, "GAMMA") {
        CurveDataType::GammaRay
    } else if contains_text(u, "RHOB") || contains_text(u, "DENSITY") {
        CurveDataType::Density
    } else if contains_text(u, "NPHI") || contains_text(u, "NEUTRON") {
        CurveDataType::NeutronPorosity
    } else if contains_text(u, "RT") || contains_text(u, "RES") || contains_text(u, "ILD") {
        CurveDataType::Resistivity
    } else if contains_text(u, "CALI") || contains_text(u, "CALIPER") {
        CurveDataType::Caliper
    } else if contains_text(u, "DT") || contains_text(u, "SONIC") {
        CurveDataType::Sonic
    } else if contains_text(u, "SP") {
        CurveDataType::SpontaneousPotential
    } else if contains_text(u, "PE") || contains_text(u, "PHOTO") {
        CurveDataType::PhotoelectricFactor
    } else if contains_text(u, "DEPTH") {
        CurveDataType::Depth
    } else if contains_text(u, "VSH") || contains_text(u, "PHI") || contains_text(u, "SW") {
        CurveDataType::Computed
    } else {
        CurveDataType::Unknown
    }
}

/// Metadata of a UDF, for display and search.
#[derive(Debug, Clone)]
pub struct UdfMetadata {
    /// Human-readable name.
    pub name: String,
    /// Category used for grouping.
    pub category: String,
    /// Short description.
    pub description: String,
    /// Longer documentation, in markdown.
    pub documentation: Option<String>,
    /// Version string.
    pub version: String,
    /// Tags for search.
    pub tags: Vec<String>,
}

/// Terminal status of an execution.
#[derive(Debug, Clone, Copy, PartialEq, Eq, Structural)]
pub enum ExecutionStatus {
    /// The execution produced its output.
    Completed,
    /// The execution stopped on an error.
    Failed,
    /// The execution was cancelled by its caller.
    Cancelled,
}

impl ExecutionStatus {
    /// Name of the status in the provenance store.
    pub open spec fn spec_name(self) -> Seq<char> {
        match self {
            ExecutionStatus::Completed => "completed"@,
            ExecutionStatus::Failed => "failed"@,
            ExecutionStatus::Cancelled => "cancelled"@,
        }
    }

    /// Name of the status in the provenance store.
    pub fn as_str(&self) -> (r: &'static str)
        ensures
            r@ == self.spec_name(),
    {
        match self {
            ExecutionStatus::Completed => "completed",
            ExecutionStatus::Failed => "failed",
            ExecutionStatus::Cancelled => "cancelled",
        }
    }
}

} // verus!
