//! The providers and UDFs shipped with the engine.
//!
//! Their computations run over floating-point samples, outside this crate;
//! here they are described and registered.

use vstd::prelude::*;
use crate::error::{UdfError, ValidationError};
use crate::registry::{composites, Udf, UdfProvider, UdfRegistry};
use crate::types::UdfMetadata;

verus! {

/// Centered moving-average smoothing of a curve.
#[derive(Debug, Clone, Copy)]
pub struct MovingAverageUdf;

impl MovingAverageUdf {
    /// Creates the UDF.
    pub fn new() -> (r: Self) {
        MovingAverageUdf
    }
}

impl Udf for MovingAverageUdf {
    fn id(&self) -> (r: String)
        ensures
            r@ == "moving_average"@,
    {
        "moving_average".to_owned()
    }

    fn metadata(&self) -> UdfMetadata {
        UdfMetadata {
            name: "Moving Average".to_owned(),
            category: "Smoothing".to_owned(),
            description: "Apply a centered moving average filter to smooth curve data".to_owned(),
            documentation: Some(
                r#"# Moving Average

Applies a centered moving average window to smooth curve data.

## Parameters

- **Input Curve**: Any numeric curve to smooth
- **Window Size**: Number of samples in the averaging window (odd values recommended)

## Algorithm

For each sample at position i:
```
smoothed[i] = mean(values[i - window/2 : i + window/2 + 1])
```

Null values are excluded from the average calculation.

## Output

- Smoothed curve with same length as input
- Edge samples use smaller windows (partial averaging)
"#.to_owned(),
            ),
            version: "1.0.0".to_owned(),
            tags: vec!["smooth".to_owned(), "filter".to_owned(), "average".to_owned(), "noise".to_owned()],
        }
    }
}

/// Linear rescaling of a curve from one range to another.
#[derive(Debug, Clone, Copy)]
pub struct LinearScaleUdf;

impl LinearScaleUdf {
    /// Creates the UDF.
    pub fn new() -> (r: Self) {
        LinearScaleUdf
    }
}

impl Udf for LinearScaleUdf {
    fn id(&self) -> (r: String)
        ensures
            r@ == "linear_scale"@,
    {
        "linear_scale".to_owned()
    }

    fn metadata(&self) -> UdfMetadata {
        UdfMetadata {
            name: "Linear Scale".to_owned(),
            category: "Transform".to_owned(),
            description: "Apply linear scaling/normalization to curve data".to_owned(),
            documentation: Some(
                r#"# Linear Scale

Applies a linear transformation to scale curve values from one range to another.

## Formula

```
output = (input - in_min) / (in_max - in_min) * (out_max - out_min) + out_min
```

## Common Uses

- Normalize data to 0-1 range
- Convert units (when linear relationship exists)
- Rescale for visualization

## Parameters

- **Input Range**: The min/max of the input data range
- **Output Range**: The desired min/max of the output data range
"#.to_owned(),
            ),
            version: "1.0.0".to_owned(),
            tags: vec!["scale".to_owned(), "normalize".to_owned(), "transform".to_owned(), "linear".to_owned()],
        }
    }
}

/// Resampling of a curve onto a regular depth grid.
#[derive(Debug, Clone, Copy)]
pub struct DepthResampleUdf;

impl DepthResampleUdf {
    /// Creates the UDF.
    pub fn new() -> (r: Self) {
        DepthResampleUdf
    }
}

impl Udf for DepthResampleUdf {
    fn id(&self) -> (r: String)
        ensures
            r@ == "depth_resample"@,
    {
        "depth_resample".to_owned()
    }

    fn metadata(&self) -> UdfMetadata {
        UdfMetadata {
            name: "Depth Resample".to_owned(),
            category: "Transform".to_owned(),
            description: "Resample curve data to a new depth interval".to_owned(),
            documentation: Some(
                r#"# Depth Resample

Resamples curve data to a new regular depth spacing using linear interpolation.

## Parameters

- **Input Curve**: Curve to resample
- **New Step**: Desired depth interval (e.g., 0.5 for half-foot sampling)
- **Start Depth**: Optional start depth (defaults to first sample)
- **End Depth**: Optional end depth (defaults to last sample)

## Algorithm

Uses linear interpolation between adjacent samples to compute values at new depths.
Extrapolation beyond the original depth range is not performed (returns null).

## Output

- Curve with regular depth spacing
- Values linearly interpolated from input
"#.to_owned(),
            ),
            version: "1.0.0".to_owned(),
            tags: vec!["resample".to_owned(), "depth".to_owned(), "interpolate".to_owned(), "spacing".to_owned()],
        }
    }
}

/// Shale volume from gamma ray, linear in the gamma-ray index.
#[derive(Debug, Clone, Copy)]
pub struct VShaleLinearUdf;

impl VShaleLinearUdf {
    /// Creates the UDF.
    pub fn new() -> (r: Self) {
        VShaleLinearUdf
    }
}

impl Udf for VShaleLinearUdf {
    fn id(&self) -> (r: String)
        ensures
            r@ == "vshale_linear"@,
    {
        "vshale_linear".to_owned()
    }

    fn metadata(&self) -> UdfMetadata {
        UdfMetadata {
            name: "VShale (Linear)".to_owned(),
            category: "Petrophysics".to_owned(),
            description: "Calculate shale volume from Gamma Ray using linear method".to_owned(),
            documentation: Some(
                r#"# VShale Linear

The linear VShale method calculates shale volume as a linear function of the
gamma ray index (IGR):

```
IGR = (GR - GRmin) / (GRmax - GRmin)
Vsh = IGR
```

## Parameters

- **GR Curve**: Input gamma ray curve (must be of type Gamma Ray)
- **GR Min**: Clean sand gamma ray reading (API units)
- **GR Max**: Shale gamma ray reading (API units)

## Output

- **VSH_LIN**: Shale volume fraction (0-1, may exceed bounds if GR is outside min/max range)

## Notes

- This is the simplest VShale method and often overestimates shale in consolidated formations
- For more accurate results in older formations, consider Clavier or Steiber methods
"#.to_owned(),
            ),
            version: "1.0.0".to_owned(),
            tags: vec!["shale".to_owned(), "gamma ray".to_owned(), "vshale".to_owned(), "linear".to_owned()],
        }
    }
}

/// Shale volume from gamma ray by the Clavier equation.
#[derive(Debug, Clone, Copy)]
pub struct VShaleClavier;

impl VShaleClavier {
    /// Creates the UDF.
    pub fn new() -> (r: Self) {
        VShaleClavier
    }
}

impl Udf for VShaleClavier {
    fn id(&self) -> (r: String)
        ensures
            r@ == "vshale_clavier"@,
    {
        "vshale_clavier".to_owned()
    }

    fn metadata(&self) -> UdfMetadata {
        UdfMetadata {
            name: "VShale (Clavier)".to_owned(),
            category: "Petrophysics".to_owned(),
            description: "Calculate shale volume from Gamma Ray using Clavier equation".to_owned(),
            documentation: Some(
                r#"# VShale Clavier

The Clavier method provides a non-linear correction for older,
more consolidated formations:

```
IGR = (GR - GRmin) / (GRmax - GRmin)
Vsh = 1.7 - sqrt(3.38 - (IGR + 0.7)^2)
```

## When to Use

Best for Tertiary and older consolidated rocks where the linear
method tends to overestimate shale content.
"#.to_owned(),
            ),
            version: "1.0.0".to_owned(),
            tags: vec!["shale".to_owned(), "gamma ray".to_owned(), "vshale".to_owned(), "clavier".to_owned()],
        }
    }
}

/// Shale volume from gamma ray by the Steiber equation.
#[derive(Debug, Clone, Copy)]
pub struct VShaleSteiber;

impl VShaleSteiber {
    /// Creates the UDF.
    pub fn new() -> (r: Self) {
        VShaleSteiber
    }
}

impl Udf for VShaleSteiber {
    fn id(&self) -> (r: String)
        ensures
            r@ == "vshale_steiber"@,
    {
        "vshale_steiber".to_owned()
    }

    fn metadata(&self) -> UdfMetadata {
        UdfMetadata {
            name: "VShale (Steiber)".to_owned(),
            category: "Petrophysics".to_owned(),
            description: "Calculate shale volume from Gamma Ray using Steiber equation".to_owned(),
            documentation: Some(
                r#"# VShale Steiber

The Steiber method provides a non-linear correction:

```
IGR = (GR - GRmin) / (GRmax - GRmin)
Vsh = IGR / (3 - 2 * IGR)
```

## When to Use

An alternative to Clavier for consolidated formations. May give
lower shale volume estimates than the linear method.
"#.to_owned(),
            ),
            version: "1.0.0".to_owned(),
            tags: vec!["shale".to_owned(), "gamma ray".to_owned(), "vshale".to_owned(), "steiber".to_owned()],
        }
    }
}

/// First index of the centered window of `window` samples around `index`.
pub open spec fn window_start(index: nat, window: nat) -> nat {
    if index >= window / 2 {
        (index - window / 2) as nat
    } else {
        0
    }
}

/// End (exclusive) of the centered window around `index`, clamped to a
/// curve of `len` samples.
pub open spec fn window_end(index: nat, len: nat, window: nat) -> nat {
    if index + window / 2 + 1 <= len {
        index + window / 2 + 1
    } else {
        len
    }
}

/// The present samples of a sequence, in order.
pub open spec fn present<N>(s: Seq<Option<N>>) -> Seq<N>
    decreases s.len(),
{
    if s.len() == 0 {
        Seq::empty()
    } else {
        match s.last() {
            Some(v) => present(s.drop_last()).push(v),
            None => present(s.drop_last()),
        }
    }
}

/// Bounds `[start, end)` of the moving-average window around `index`: half
/// the window on each side, clamped to the curve's ends.
pub fn centered_window(index: usize, len: usize, window: usize) -> (r: (usize, usize))
    requires
        index < len,
    ensures
        r.0 == window_start(index as nat, window as nat),
        r.1 == window_end(index as nat, len as nat, window as nat),
        r.0 <= index < r.1 <= len,
{
    let half = window / 2;
    let start = if index >= half { index - half } else { 0 };
    let end = if half < len - index { index + half + 1 } else { len };
    (start, end)
}

/// The present samples among `values[start..end]`, in order; null samples
/// are left out.
pub fn present_samples<N: Copy>(values: &Vec<Option<N>>, start: usize, end: usize) -> (r: Vec<N>)
    requires
        start <= end <= values@.len(),
    ensures
        r@ == present(values@.subrange(start as int, end as int)),
{
    let mut r: Vec<N> = Vec::new();
    let mut i: usize = start;
    while i < end
        invariant
            start <= i <= end,
            end <= values@.len(),
            r@ == present(values@.subrange(start as int, i as int)),
        decreases end - i,
    {
        proof {
            assert(values@.subrange(start as int, i + 1).drop_last() =~= values@.subrange(start as int, i as int));
        }
        match values[i] {
            Some(v) => r.push(v),
            None => {},
        }
        i = i + 1;
    }
    r
}

/// A window of one sample holds just that sample: its own value when it is
/// present, nothing when it is null.
pub proof fn lemma_unit_window<N>(values: Seq<Option<N>>, index: nat)
    requires
        index < values.len(),
    ensures
        window_start(index, 1) == index,
        window_end(index, values.len(), 1) == index + 1,
        present(values.subrange(index as int, index + 1 as int)) == (match values[index as int] {
            Some(v) => seq![v],
            None => Seq::<N>::empty(),
        }),
{
    let w = values.subrange(index as int, index + 1 as int);
    assert(present(w.drop_last()) =~= Seq::<N>::empty());
    match values[index as int] {
        Some(v) => {
        },
        None => {},
    }
}

/// Errors of the moving average's own check: an even window cannot be
/// centered.
pub fn window_size_errors(window: usize) -> (r: Vec<ValidationError>)
    ensures
        r@.len() == (if window % 2 == 0 { 1nat } else { 0nat }),
        forall|i: int| 0 <= i < r@.len() ==> (#[trigger] r@[i]).field@ == "window_size"@
            && r@[i].message@ == "Window size should be odd for symmetric averaging"@
            && r@[i].suggestion_view() == Some("Use an odd number like 3, 5, 7, etc."@),
{
    let mut errors: Vec<ValidationError> = Vec::new();
    if window % 2 == 0 {
        errors.push(
            ValidationError::new("window_size", "Window size should be odd for symmetric averaging")
                .with_suggestion("Use an odd number like 3, 5, 7, etc."),
        );
    }
    errors
}

/// Whether the linear shale-volume method warns: more than 5% of the
/// computed values fall outside `[0, 1]`.
pub fn needs_range_warning(out_of_range: usize, total: usize) -> (r: bool)
    ensures
        r == (out_of_range * 100 > 5 * total),
{
    out_of_range as u128 * 100 > 5 * total as u128
}

/// One of the shipped UDFs.
#[derive(Debug, Clone, Copy)]
pub enum BuiltinUdf {
    MovingAverage(MovingAverageUdf),
    LinearScale(LinearScaleUdf),
    DepthResample(DepthResampleUdf),
    VShaleLinear(VShaleLinearUdf),
    VShaleClavier(VShaleClavier),
    VShaleSteiber(VShaleSteiber),
}

impl BuiltinUdf {
    /// Identifier of the UDF within its provider.
    pub open spec fn spec_id(&self) -> Seq<char> {
        match self {
            BuiltinUdf::MovingAverage(_) => "moving_average"@,
            BuiltinUdf::LinearScale(_) => "linear_scale"@,
            BuiltinUdf::DepthResample(_) => "depth_resample"@,
            BuiltinUdf::VShaleLinear(_) => "vshale_linear"@,
            BuiltinUdf::VShaleClavier(_) => "vshale_clavier"@,
            BuiltinUdf::VShaleSteiber(_) => "vshale_steiber"@,
        }
    }

    /// Identifier of the UDF within its provider.
    pub fn udf_id(&self) -> (r: String)
        ensures
            r@ == self.spec_id(),
    {
        match self {
            BuiltinUdf::MovingAverage(_) => "moving_average".to_owned(),
            BuiltinUdf::LinearScale(_) => "linear_scale".to_owned(),
            BuiltinUdf::DepthResample(_) => "depth_resample".to_owned(),
            BuiltinUdf::VShaleLinear(_) => "vshale_linear".to_owned(),
            BuiltinUdf::VShaleClavier(_) => "vshale_clavier".to_owned(),
            BuiltinUdf::VShaleSteiber(_) => "vshale_steiber".to_owned(),
        }
    }
}

impl Udf for BuiltinUdf {
    fn id(&self) -> (r: String)
        ensures
            r@ == self.spec_id(),
    {
        self.udf_id()
    }

    fn metadata(&self) -> UdfMetadata {
        match self {
            BuiltinUdf::MovingAverage(u) => u.metadata(),
            BuiltinUdf::LinearScale(u) => u.metadata(),
            BuiltinUdf::DepthResample(u) => u.metadata(),
            BuiltinUdf::VShaleLinear(u) => u.metadata(),
            BuiltinUdf::VShaleClavier(u) => u.metadata(),
            BuiltinUdf::VShaleSteiber(u) => u.metadata(),
        }
    }
}

/// Pairs each shipped UDF with its id.
pub fn with_ids(udfs: Vec<BuiltinUdf>) -> (r: Vec<(String, BuiltinUdf)>)
    ensures
        r@.map_values(|e: (String, BuiltinUdf)| e.0@) == udfs@.map_values(|u: BuiltinUdf| u.spec_id()),
{
    let mut r: Vec<(String, BuiltinUdf)> = Vec::new();
    let mut i: usize = 0;
    while i < udfs.len()
        invariant
            i <= udfs@.len(),
            r@.len() == i,
            forall|k: int| 0 <= k < i ==> (#[trigger] r@[k]).0@ == udfs@[k].spec_id(),
        decreases udfs@.len() - i,
    {
        let u = udfs[i];
        r.push((u.udf_id(), u));
        i = i + 1;
    }
    r
}

/// Provider of fundamental processing tools: smoothing, scaling, resampling.
pub struct CoreProvider {
    version: String,
}

impl CoreProvider {
    /// Version of the provider.
    pub closed spec fn spec_version(&self) -> Seq<char> {
        self.version@
    }

    /// Creates the provider, at version 0.1.0.
    pub fn new() -> (r: Self)
        ensures
            r.spec_version() == "0.1.0"@,
    {
        CoreProvider { version: "0.1.0".to_owned() }
    }

    /// The provider's UDFs, in order.
    pub fn udfs(&self) -> (r: Vec<BuiltinUdf>)
        ensures
            r@.map_values(|u: BuiltinUdf| u.spec_id()) == seq!["moving_average"@, "linear_scale"@, "depth_resample"@],
    {
        let r = vec![BuiltinUdf::MovingAverage(MovingAverageUdf::new()), BuiltinUdf::LinearScale(LinearScaleUdf::new()), BuiltinUdf::DepthResample(DepthResampleUdf::new())];
        r
    }
}

impl UdfProvider<BuiltinUdf> for CoreProvider {
    fn id(&self) -> (r: String)
        ensures
            r@ == "core"@,
    {
        "core".to_owned()
    }

    fn name(&self) -> (r: String)
        ensures
            r@ == "Core Processing"@,
    {
        "Core Processing".to_owned()
    }

    fn version(&self) -> (r: String)
        ensures
            r@ == self.spec_version(),
    {
        self.version.clone()
    }

    fn description(&self) -> (r: String)
        ensures
            r@ == "Fundamental data processing tools for well log curves"@,
    {
        "Fundamental data processing tools for well log curves".to_owned()
    }

    fn load_udfs(&self) -> (r: Vec<BuiltinUdf>)
        ensures
            r@.map_values(|u: BuiltinUdf| u.spec_id()) == seq!["moving_average"@, "linear_scale"@, "depth_resample"@],
    {
        self.udfs()
    }

    fn is_available(&self) -> (r: Result<(), UdfError>)
        ensures
            r is Ok,
    {
        Ok(())
    }
}

/// Provider of petrophysical calculations: shale volume from gamma ray.
pub struct PetrophysicsProvider {
    version: String,
}

impl PetrophysicsProvider {
    /// Version of the provider.
    pub closed spec fn spec_version(&self) -> Seq<char> {
        self.version@
    }

    /// Creates the provider, at version 0.1.0.
    pub fn new() -> (r: Self)
        ensures
            r.spec_version() == "0.1.0"@,
    {
        PetrophysicsProvider { version: "0.1.0".to_owned() }
    }

    /// The provider's UDFs, in order.
    pub fn udfs(&self) -> (r: Vec<BuiltinUdf>)
        ensures
            r@.map_values(|u: BuiltinUdf| u.spec_id()) == seq!["vshale_linear"@, "vshale_clavier"@, "vshale_steiber"@],
    {
        let r = vec![BuiltinUdf::VShaleLinear(VShaleLinearUdf::new()), BuiltinUdf::VShaleClavier(VShaleClavier::new()), BuiltinUdf::VShaleSteiber(VShaleSteiber::new())];
        r
    }
}

impl UdfProvider<BuiltinUdf> for PetrophysicsProvider {
    fn id(&self) -> (r: String)
        ensures
            r@ == "petro"@,
    {
        "petro".to_owned()
    }

    fn name(&self) -> (r: String)
        ensures
            r@ == "Petrophysics"@,
    {
        "Petrophysics".to_owned()
    }

    fn version(&self) -> (r: String)
        ensures
            r@ == self.spec_version(),
    {
        self.version.clone()
    }

    fn description(&self) -> (r: String)
        ensures
            r@ == "Fundamental petrophysical calculations for well log analysis"@,
    {
        "Fundamental petrophysical calculations for well log analysis".to_owned()
    }

    fn load_udfs(&self) -> (r: Vec<BuiltinUdf>)
        ensures
            r@.map_values(|u: BuiltinUdf| u.spec_id()) == seq!["vshale_linear"@, "vshale_clavier"@, "vshale_steiber"@],
    {
        self.udfs()
    }

    fn is_available(&self) -> (r: Result<(), UdfError>)
        ensures
            r is Ok,
    {
        Ok(())
    }
}

/// One of the shipped providers.
pub enum BuiltinProvider {
    Core(CoreProvider),
    Petrophysics(PetrophysicsProvider),
}

impl UdfProvider<BuiltinUdf> for BuiltinProvider {
    fn id(&self) -> String {
        match self {
            BuiltinProvider::Core(p) => p.id(),
            BuiltinProvider::Petrophysics(p) => p.id(),
        }
    }

    fn name(&self) -> String {
        match self {
            BuiltinProvider::Core(p) => p.name(),
            BuiltinProvider::Petrophysics(p) => p.name(),
        }
    }

    fn version(&self) -> String {
        match self {
            BuiltinProvider::Core(p) => p.version(),
            BuiltinProvider::Petrophysics(p) => p.version(),
        }
    }

    fn description(&self) -> String {
        match self {
            BuiltinProvider::Core(p) => p.description(),
            BuiltinProvider::Petrophysics(p) => p.description(),
        }
    }

    fn load_udfs(&self) -> Vec<BuiltinUdf> {
        match self {
            BuiltinProvider::Core(p) => p.load_udfs(),
            BuiltinProvider::Petrophysics(p) => p.load_udfs(),
        }
    }
}

/// Composite ids of the core provider's UDFs.
pub open spec fn core_composites() -> Seq<Seq<char>> {
    composites("core"@, seq!["moving_average"@, "linear_scale"@, "depth_resample"@])
}

/// Composite ids of the petrophysics provider's UDFs.
pub open spec fn petro_composites() -> Seq<Seq<char>> {
    composites("petro"@, seq!["vshale_linear"@, "vshale_clavier"@, "vshale_steiber"@])
}

proof fn lemma_builtin_ids_distinct()
    ensures
        core_composites().no_duplicates(),
        petro_composites().no_duplicates(),
        forall|a: int, b: int| 0 <= a < 3 && 0 <= b < 3 ==> core_composites()[a] != petro_composites()[b],
        "core"@ != "petro"@,
{
    reveal_strlit("core");
    reveal_strlit("petro");
    reveal_strlit(":");
    reveal_strlit("moving_average");
    reveal_strlit("linear_scale");
    reveal_strlit("depth_resample");
    reveal_strlit("vshale_linear");
    reveal_strlit("vshale_clavier");
    reveal_strlit("vshale_steiber");
    let c = core_composites();
    let p = petro_composites();
    assert(c[1][5] != c[2][5]);
    assert(p[1][14] != p[2][14]);
    assert forall|a: int, b: int| 0 <= a < 3 && 0 <= b < 3 implies c[a] != p[b] by {
        assert(c[a][0] != p[b][0]);
    }
}

/// Registers the shipped providers: core processing, then petrophysics.
pub fn register_builtin_providers(registry: &mut UdfRegistry<BuiltinProvider, BuiltinUdf>) -> (r: Result<(), UdfError>)
    requires
        old(registry).wf(),
    ensures
        final(registry).wf(),
        r.is_ok() ==> final(registry).provider_ids() == old(registry).provider_ids().push("core"@).push("petro"@)
            && final(registry).udf_ids() == old(registry).udf_ids() + core_composites() + petro_composites(),
        old(registry).provider_ids().len() == 0 && old(registry).udf_ids().len() == 0 ==> r.is_ok(),
{
    proof {
        lemma_builtin_ids_distinct();
    }
    let ghost start = *registry;
    let core = CoreProvider::new();
    let core_udfs = with_ids(core.udfs());
    registry.add_provider("core".to_owned(), BuiltinProvider::Core(core), core_udfs)?;
    let ghost mid = *registry;
    proof {
        if start.provider_ids().len() == 0 && start.udf_ids().len() == 0 {
            assert(!mid.provider_ids().contains("petro"@));
            assert(forall|k: int| 0 <= k < 3 ==> !mid.udf_ids().contains(#[trigger] petro_composites()[k]));
        }
    }
    let petro = PetrophysicsProvider::new();
    let petro_udfs = with_ids(petro.udfs());
    registry.add_provider("petro".to_owned(), BuiltinProvider::Petrophysics(petro), petro_udfs)?;
    Ok(())
}

} // verus!
