//! The immutable curve data model and the depth-compatibility check.

use vstd::prelude::*;
use std::sync::Arc;
use crate::error::UdfError;
use crate::types::CurveDataType;

verus! {

/// Relies on `Arc::ptr_eq`: two handles to one allocation hold one value.
#[verifier::external_body]
pub(crate) fn same_allocation<T>(a: &Arc<T>, b: &Arc<T>) -> (r: bool)
    ensures
        r ==> *a == *b,
{
    Arc::ptr_eq(a, b)
}

/// Depths and samples of a curve: one optional sample per depth.
#[derive(Debug)]
pub struct DepthSeries<N> {
    depths: Arc<Vec<N>>,
    values: Vec<Option<N>>,
}

impl<N> DepthSeries<N> {
    /// Every depth has exactly one sample.
    #[verifier::type_invariant]
    spec fn lengths_agree(&self) -> bool {
        self.depths@.len() == self.values@.len()
    }

    /// The depths.
    pub closed spec fn depths_view(&self) -> Seq<N> {
        self.depths@
    }

    /// The samples, aligned with the depths.
    pub closed spec fn values_view(&self) -> Seq<Option<N>> {
        self.values@
    }

    /// The shared depth storage.
    pub closed spec fn storage(&self) -> Arc<Vec<N>> {
        self.depths
    }

    /// Pairs depths with samples; refused with `CurveLoadError` when their
    /// numbers differ.
    pub fn new(depths: Arc<Vec<N>>, values: Vec<Option<N>>) -> (r: Result<Self, UdfError>)
        ensures
            r.is_ok() == (depths@.len() == values@.len()),
            r matches Ok(s) ==> s.depths_view() == depths@ && s.values_view() == values@ && s.storage() == depths,
            r matches Err(e) ==> e is CurveLoadError,
    {
        if depths.len() != values.len() {
            return Err(UdfError::CurveLoadError("Depth and value counts differ".to_owned()));
        }
        Ok(DepthSeries { depths, values })
    }

    /// Number of samples.
    pub fn len(&self) -> (r: usize)
        ensures
            r == self.values_view().len(),
            r == self.depths_view().len(),
    {
        proof {
            use_type_invariant(self);
        }
        self.values.len()
    }

    /// The shared depth storage.
    pub fn depths(&self) -> (r: &Arc<Vec<N>>)
        ensures
            *r == self.storage(),
            r@ == self.depths_view(),
    {
        &self.depths
    }

    /// The samples.
    pub fn values(&self) -> (r: &Vec<Option<N>>)
        ensures
            r@ == self.values_view(),
    {
        &self.values
    }
}

/// One loaded curve. The sample type is left to the caller.
#[derive(Debug)]
pub struct CurveData<N> {
    /// Curve identifier.
    pub curve_id: uuid::Uuid,
    /// Mnemonic name.
    pub mnemonic: String,
    /// Domain classification.
    pub curve_type: CurveDataType,
    /// Unit of measurement.
    pub unit: String,
    /// Depth index, shared between the curves of a well, and samples.
    pub series: DepthSeries<N>,
    /// Content hash of the backing blob.
    pub parquet_hash: String,
    /// Curve version.
    pub version: i64,
}

impl<N> CurveData<N> {
    /// Number of samples.
    pub fn len(&self) -> (r: usize)
        ensures
            r == self.series.values_view().len(),
            r == self.series.depths_view().len(),
    {
        self.series.len()
    }

    /// Whether the curve has no samples.
    pub fn is_empty(&self) -> (r: bool)
        ensures
            r == (self.series.values_view().len() == 0),
    {
        self.series.len() == 0
    }

    /// Sample at an index; none past the end or at a null sample.
    pub fn value_at(&self, index: usize) -> (r: Option<&N>)
        ensures
            index < self.series.values_view().len() && self.series.values_view()[index as int] is Some
                ==> r == Some(&self.series.values_view()[index as int].unwrap()),
            !(index < self.series.values_view().len() && self.series.values_view()[index as int] is Some) ==> r is None,
    {
        let values = self.series.values();
        if index < values.len() {
            match &values[index] {
                Some(v) => Some(v),
                None => None,
            }
        } else {
            None
        }
    }
}

/// Why two bound curves do not share a depth index.
#[derive(Debug, Clone)]
pub enum DepthMismatch<N> {
    /// The curve has `found` samples where the reference has `expected`.
    Length { curve: String, found: usize, expected: usize },
    /// The depths first differ at `index`: the reference has `expected`
    /// there, the curve `found`.
    Value { curve: String, index: usize, expected: N, found: N },
}

} // verus!
