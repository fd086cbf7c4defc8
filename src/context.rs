//! Cooperative cancellation, progress reporting, the table of executions in
//! flight, and the execution context that a UDF runs in.

use vstd::prelude::*;
use std::sync::atomic::{AtomicBool, AtomicU8, Ordering};
use std::sync::{Arc, RwLock};
use crate::curves::{CurveData, DepthMismatch, same_allocation};
use crate::error::UdfError;
use crate::parameters::ParameterValues;
use crate::provenance::InputReference;
use crate::types::CurveDataType;

verus! {

/// Reader-writer lock of std, holding the progress message.
#[verifier::external_type_specification]
#[verifier::external_body]
#[verifier::reject_recursive_types(T)]
pub struct ExRwLock<T: ?Sized>(RwLock<T>);

/// Relies on `RwLock::new`: a lock holding no message.
#[verifier::external_body]
fn empty_message_lock() -> RwLock<Option<String>> {
    RwLock::new(None)
}

/// Relies on `RwLock::read`: a copy of the message, or none when the lock is
/// poisoned.
#[verifier::external_body]
fn read_message(lock: &RwLock<Option<String>>) -> Option<String> {
    lock.read().ok().and_then(|m| m.clone())
}

/// Relies on `RwLock::write`: replaces the message unless the lock is
/// poisoned.
#[verifier::external_body]
fn write_message(lock: &RwLock<Option<String>>, message: String) {
    if let Ok(mut m) = lock.write() {
        *m = Some(message);
    }
}

/// Shared flag through which a caller asks an execution to stop.
pub struct CancellationToken {
    cancelled: AtomicBool,
}

impl CancellationToken {
    /// Creates a token that is not cancelled.
    pub fn new() -> (r: Self) {
        CancellationToken { cancelled: AtomicBool::new(false) }
    }

    /// Requests cancellation.
    pub fn cancel(&self) {
        self.cancelled.store(true, Ordering::SeqCst);
    }

    /// Whether cancellation has been requested.
    pub fn is_cancelled(&self) -> bool {
        self.cancelled.load(Ordering::SeqCst)
    }

    /// `Cancelled` once cancellation has been requested.
    pub fn check_cancelled(&self) -> (r: Result<(), UdfError>)
        ensures
            r matches Err(e) ==> e is Cancelled,
    {
        if self.is_cancelled() {
            Err(UdfError::Cancelled)
        } else {
            Ok(())
        }
    }
}

/// Shared progress of an execution: a percentage from 0 to 100 and an
/// optional status message.
pub struct ProgressState {
    progress: AtomicU8,
    message: RwLock<Option<String>>,
}

impl ProgressState {
    /// Creates a progress state at 0% with no message.
    pub fn new() -> (r: Self) {
        ProgressState { progress: AtomicU8::new(0), message: empty_message_lock() }
    }

    /// Sets the percentage, held to at most 100.
    pub fn set_percent(&self, percent: u8) {
        let p = if percent > 100 { 100 } else { percent };
        self.progress.store(p, Ordering::SeqCst);
    }

    /// Sets the percentage and the status message.
    pub fn set_percent_with_message(&self, percent: u8, message: String) {
        self.set_percent(percent);
        write_message(&self.message, message);
    }

    /// Current percentage.
    pub fn get_progress(&self) -> u8 {
        self.progress.load(Ordering::SeqCst)
    }

    /// Current status message.
    pub fn get_message(&self) -> Option<String> {
        read_message(&self.message)
    }
}

/// Progress of one execution in flight, as reported to a caller.
#[derive(Debug, Clone)]
pub struct ExecutionProgress {
    pub execution_id: String,
    pub progress: u8,
    pub message: Option<String>,
    pub is_cancelled: bool,
}

/// Executions in flight, by execution id, with their cancellation token and
/// progress state.
pub struct ActiveExecutions {
    executions: Vec<(String, Arc<CancellationToken>, Arc<ProgressState>)>,
}

impl ActiveExecutions {
    /// Ids of the executions in flight.
    pub closed spec fn ids(&self) -> Seq<Seq<char>> {
        self.executions@.map_values(|e: (String, Arc<CancellationToken>, Arc<ProgressState>)| e.0@)
    }

    /// No id occurs twice.
    pub open spec fn wf(&self) -> bool {
        self.ids().no_duplicates()
    }

    /// Creates an empty table.
    pub fn new() -> (r: Self)
        ensures
            r.wf(),
            r.ids().len() == 0,
    {
        ActiveExecutions { executions: Vec::new() }
    }

    /// Position of an id in the table.
    fn index_of(&self, execution_id: &str) -> (r: Option<usize>)
        ensures
            match r {
                Some(i) => i < self.ids().len() && self.ids()[i as int] == execution_id@,
                None => !self.ids().contains(execution_id@),
            },
    {
        let mut i: usize = 0;
        while i < self.executions.len()
            invariant
                i <= self.executions@.len(),
                forall|j: int| 0 <= j < i ==> self.ids()[j] != execution_id@,
            decreases self.executions@.len() - i,
        {
            if crate::text::same_text(self.executions[i].0.as_str(), execution_id) {
                return Some(i);
            }
            i = i + 1;
        }
        None
    }

    /// Enters an execution, replacing an entry under the same id.
    pub fn insert(&mut self, execution_id: String, token: Arc<CancellationToken>, progress: Arc<ProgressState>)
        requires
            old(self).wf(),
        ensures
            final(self).wf(),
            final(self).ids().to_set() == old(self).ids().to_set().insert(execution_id@),
    {
        let ghost old_ids = self.ids();
        match self.index_of(execution_id.as_str()) {
            Some(i) => {
                let ghost id_view = execution_id@;
                self.executions.set(i, (execution_id, token, progress));
                proof {
                    assert(self.ids() =~= old_ids);
                }
            },
            None => {
                let ghost id_view = execution_id@;
                self.executions.push((execution_id, token, progress));
                proof {
                    assert(self.ids() =~= old_ids.push(id_view));
                    old_ids.lemma_push_to_set_commute(id_view);
                    assert(forall|a: int, b: int| 0 <= a < b < self.ids().len() ==> self.ids()[a] != self.ids()[b]);
                }
            },
        }
    }

    /// Removes an execution; returns whether it was in the table.
    pub fn remove(&mut self, execution_id: &str) -> (r: bool)
        requires
            old(self).wf(),
        ensures
            final(self).wf(),
            r == old(self).ids().contains(execution_id@),
            final(self).ids().to_set() == old(self).ids().to_set().remove(execution_id@),
    {
        let ghost old_ids = self.ids();
        match self.index_of(execution_id) {
            Some(i) => {
                self.executions.remove(i);
                proof {
                    assert(self.ids() =~= old_ids.remove(i as int));
                    assert forall|x| #[trigger] self.ids().to_set().contains(x) == old_ids.to_set().remove(execution_id@).contains(x) by {
                        if old_ids.contains(x) && x != execution_id@ {
                            let k = choose|k: int| 0 <= k < old_ids.len() && old_ids[k] == x;
                            if k < i {
                                assert(self.ids()[k] == x);
                            } else {
                                assert(self.ids()[k - 1] == x);
                            }
                        }
                    }
                }
                true
            },
            None => {
                false
            },
        }
    }

    /// Progress of an execution in flight.
    pub fn progress_of(&self, execution_id: &str) -> (r: Option<ExecutionProgress>)
        ensures
            r.is_some() == self.ids().contains(execution_id@),
            r matches Some(p) ==> p.execution_id@ == execution_id@,
    {
        match self.index_of(execution_id) {
            Some(i) => {
                let e = &self.executions[i];
                Some(ExecutionProgress {
                    execution_id: execution_id.to_owned(),
                    progress: e.2.get_progress(),
                    message: e.2.get_message(),
                    is_cancelled: e.1.is_cancelled(),
                })
            },
            None => None,
        }
    }

    /// Requests cancellation of an execution in flight; returns whether it
    /// was found.
    pub fn cancel(&self, execution_id: &str) -> (r: bool)
        ensures
            r == self.ids().contains(execution_id@),
    {
        match self.index_of(execution_id) {
            Some(i) => {
                self.executions[i].1.cancel();
                true
            },
            None => false,
        }
    }

    /// Progress of every execution in flight.
    pub fn list(&self) -> (r: Vec<ExecutionProgress>)
        ensures
            r@.map_values(|p: ExecutionProgress| p.execution_id@) == self.ids(),
    {
        let mut r: Vec<ExecutionProgress> = Vec::new();
        let mut i: usize = 0;
        while i < self.executions.len()
            invariant
                i <= self.executions@.len(),
                r@.len() == i,
                forall|k: int| 0 <= k < i ==> (#[trigger] r@[k]).execution_id@ == self.ids()[k],
            decreases self.executions@.len() - i,
        {
            let e = &self.executions[i];
            r.push(ExecutionProgress {
                execution_id: e.0.clone(),
                progress: e.2.get_progress(),
                message: e.2.get_message(),
                is_cancelled: e.1.is_cancelled(),
            });
            i = i + 1;
        }
        r
    }
}

/// Every pair of aligned depths passes the closure's test.
pub open spec fn depths_agree<N, F: Fn(&N, &N) -> bool>(same_depth: F, a: Seq<N>, b: Seq<N>) -> bool {
    &&& a.len() == b.len()
    &&& forall|i: int| 0 <= i < a.len() ==> call_ensures(same_depth, (&a[i], &b[i]), true)
}

/// A bound curve shares the reference's depths: the same storage, or depths
/// that agree one by one.
pub open spec fn compatible_with<N, F: Fn(&N, &N) -> bool>(same_depth: F, reference: CurveData<N>, c: CurveData<N>) -> bool {
    c.series.storage() == reference.series.storage()
        || depths_agree(same_depth, reference.series.depths_view(), c.series.depths_view())
}

/// Sandbox of one execution: validated parameters, curves bound by
/// parameter name, the inputs read for provenance, metadata, and the shared
/// cancellation token and progress state.
pub struct ExecutionContext<N> {
    parameters: ParameterValues<N>,
    curves: Vec<(String, Arc<CurveData<N>>)>,
    input_refs: Vec<InputReference>,
    well_id: uuid::Uuid,
    workspace_id: uuid::Uuid,
    metadata: Vec<(String, String)>,
    cancellation_token: Arc<CancellationToken>,
    progress_state: Arc<ProgressState>,
}

impl<N> ExecutionContext<N> {
    /// Parameter names and curves, in binding order.
    pub closed spec fn bindings(&self) -> Seq<(Seq<char>, CurveData<N>)> {
        self.curves@.map_values(|e: (String, Arc<CurveData<N>>)| (e.0@, *e.1))
    }

    /// Inputs read, in binding order.
    pub closed spec fn inputs(&self) -> Seq<InputReference> {
        self.input_refs@
    }

    /// The validated parameters.
    pub closed spec fn params(&self) -> ParameterValues<N> {
        self.parameters
    }

    /// Metadata keys and values, in insertion order.
    pub closed spec fn metadata_entries(&self) -> Seq<(Seq<char>, Seq<char>)> {
        self.metadata@.map_values(|e: (String, String)| (e.0@, e.1@))
    }

    /// The well of the execution.
    pub closed spec fn spec_well_id(&self) -> uuid::Uuid {
        self.well_id
    }

    /// The workspace of the execution.
    pub closed spec fn spec_workspace_id(&self) -> uuid::Uuid {
        self.workspace_id
    }

    /// Creates a context with a fresh cancellation token and progress state,
    /// and no curves.
    pub fn new(well_id: uuid::Uuid, workspace_id: uuid::Uuid, parameters: ParameterValues<N>) -> (r: Self)
        ensures
            r.params() == parameters,
            r.bindings().len() == 0,
            r.inputs().len() == 0,
            r.metadata_entries().len() == 0,
            r.spec_well_id() == well_id,
            r.spec_workspace_id() == workspace_id,
    {
        let r = ExecutionContext {
            parameters,
            curves: Vec::new(),
            input_refs: Vec::new(),
            well_id,
            workspace_id,
            metadata: Vec::new(),
            cancellation_token: Arc::new(CancellationToken::new()),
            progress_state: Arc::new(ProgressState::new()),
        };
        r
    }

    /// Creates a context that shares a caller's cancellation token.
    pub fn with_cancellation_token(
        well_id: uuid::Uuid,
        workspace_id: uuid::Uuid,
        parameters: ParameterValues<N>,
        cancellation_token: Arc<CancellationToken>,
    ) -> (r: Self)
        ensures
            r.params() == parameters,
            r.bindings().len() == 0,
            r.inputs().len() == 0,
            r.metadata_entries().len() == 0,
            r.spec_well_id() == well_id,
            r.spec_workspace_id() == workspace_id,
    {
        let r = ExecutionContext {
            parameters,
            curves: Vec::new(),
            input_refs: Vec::new(),
            well_id,
            workspace_id,
            metadata: Vec::new(),
            cancellation_token,
            progress_state: Arc::new(ProgressState::new()),
        };
        r
    }

    /// Creates a context that shares a caller's cancellation token and
    /// progress state, so that the caller can observe and stop the run.
    pub fn with_shared_state(
        well_id: uuid::Uuid,
        workspace_id: uuid::Uuid,
        parameters: ParameterValues<N>,
        cancellation_token: Arc<CancellationToken>,
        progress_state: Arc<ProgressState>,
    ) -> (r: Self)
        ensures
            r.params() == parameters,
            r.bindings().len() == 0,
            r.inputs().len() == 0,
            r.metadata_entries().len() == 0,
            r.spec_well_id() == well_id,
            r.spec_workspace_id() == workspace_id,
    {
        ExecutionContext {
            parameters,
            curves: Vec::new(),
            input_refs: Vec::new(),
            well_id,
            workspace_id,
            metadata: Vec::new(),
            cancellation_token,
            progress_state,
        }
    }

    /// Whether cancellation has been requested.
    pub fn is_cancelled(&self) -> bool {
        self.cancellation_token.is_cancelled()
    }

    /// `Cancelled` once cancellation has been requested.
    pub fn check_cancelled(&self) -> (r: Result<(), UdfError>)
        ensures
            r matches Err(e) ==> e is Cancelled,
    {
        self.cancellation_token.check_cancelled()
    }

    /// The shared cancellation token.
    pub fn cancellation_token(&self) -> &Arc<CancellationToken> {
        &self.cancellation_token
    }

    /// Sets the progress percentage, held to at most 100.
    pub fn set_percent(&self, percent: u8) {
        self.progress_state.set_percent(percent);
    }

    /// Sets the progress percentage and the status message.
    pub fn set_percent_with_message(&self, percent: u8, message: String) {
        self.progress_state.set_percent_with_message(percent, message);
    }

    /// Current progress percentage.
    pub fn get_progress(&self) -> u8 {
        self.progress_state.get_progress()
    }

    /// Current status message.
    pub fn get_progress_message(&self) -> Option<String> {
        self.progress_state.get_message()
    }

    /// The shared progress state.
    pub fn progress_state(&self) -> &Arc<ProgressState> {
        &self.progress_state
    }

    /// The well of the execution.
    pub fn well_id(&self) -> (r: uuid::Uuid)
        ensures
            r == self.spec_well_id(),
    {
        self.well_id
    }

    /// The workspace of the execution.
    pub fn workspace_id(&self) -> (r: uuid::Uuid)
        ensures
            r == self.spec_workspace_id(),
    {
        self.workspace_id
    }

    /// The validated parameters.
    pub fn parameters(&self) -> (r: &ParameterValues<N>)
        ensures
            *r == self.params(),
    {
        &self.parameters
    }

    /// Position of the latest binding of a parameter name.
    fn curve_index(&self, param_name: &str) -> (r: Option<usize>)
        ensures
            match r {
                Some(i) => i < self.bindings().len() && self.bindings()[i as int].0 == param_name@
                    && forall|j: int| i < j < self.bindings().len() ==> (#[trigger] self.bindings()[j]).0 != param_name@,
                None => forall|j: int| 0 <= j < self.bindings().len() ==> (#[trigger] self.bindings()[j]).0 != param_name@,
            },
    {
        let mut i: usize = self.curves.len();
        while i > 0
            invariant
                i <= self.curves@.len(),
                forall|j: int| i <= j < self.bindings().len() ==> (#[trigger] self.bindings()[j]).0 != param_name@,
            decreases i,
        {
            if crate::text::same_text(self.curves[i - 1].0.as_str(), param_name) {
                return Some(i - 1);
            }
            i = i - 1;
        }
        None
    }

    /// The curve bound to a parameter name; the latest binding wins.
    pub fn get_curve(&self, param_name: &str) -> (r: Option<&Arc<CurveData<N>>>)
        ensures
            r.is_some() == exists|j: int| 0 <= j < self.bindings().len() && (#[trigger] self.bindings()[j]).0 == param_name@,
            r matches Some(c) ==> exists|j: int| 0 <= j < self.bindings().len() && (#[trigger] self.bindings()[j]).0 == param_name@
                && **c == self.bindings()[j].1
                && forall|k: int| j < k < self.bindings().len() ==> (#[trigger] self.bindings()[k]).0 != param_name@,
    {
        match self.curve_index(param_name) {
            Some(i) => Some(&self.curves[i].1),
            None => None,
        }
    }

    /// The curve bound to a parameter name, or `MissingCurve` naming it.
    pub fn require_curve(&self, param_name: &str) -> (r: Result<&Arc<CurveData<N>>, UdfError>)
        ensures
            r.is_ok() == exists|j: int| 0 <= j < self.bindings().len() && (#[trigger] self.bindings()[j]).0 == param_name@,
            r matches Err(e) ==> e matches UdfError::MissingCurve(m) && m@ == param_name@,
    {
        match self.get_curve(param_name) {
            Some(c) => Ok(c),
            None => Err(UdfError::MissingCurve(param_name.to_owned())),
        }
    }

    /// All bound curves, in binding order.
    pub fn curves(&self) -> (r: &Vec<(String, Arc<CurveData<N>>)>)
        ensures
            r@.map_values(|e: (String, Arc<CurveData<N>>)| (e.0@, *e.1)) == self.bindings(),
    {
        &self.curves
    }

    /// Inputs read, for provenance.
    pub fn input_refs(&self) -> (r: &Vec<InputReference>)
        ensures
            r@ == self.inputs(),
    {
        &self.input_refs
    }

    /// The inputs read, consuming the context.
    pub fn into_inputs(self) -> (r: Vec<InputReference>)
        ensures
            r@ == self.inputs(),
    {
        self.input_refs
    }

    /// Binds a curve to a parameter name and records it as an input.
    pub fn add_curve(&mut self, param_name: String, curve: Arc<CurveData<N>>)
        ensures
            final(self).bindings() == old(self).bindings().push((param_name@, *curve)),
            final(self).inputs().len() == old(self).inputs().len() + 1,
            final(self).inputs().drop_last() == old(self).inputs(),
            final(self).inputs().last().curve_id == curve.curve_id,
            final(self).inputs().last().version == curve.version,
            final(self).inputs().last().parquet_hash@ == curve.parquet_hash@,
            final(self).params() == old(self).params(),
            final(self).metadata_entries() == old(self).metadata_entries(),
            final(self).spec_well_id() == old(self).spec_well_id(),
            final(self).spec_workspace_id() == old(self).spec_workspace_id(),
    {
        let input = InputReference {
            curve_id: curve.curve_id,
            version: curve.version,
            parquet_hash: curve.parquet_hash.clone(),
        };
        self.input_refs.push(input);
        self.curves.push((param_name, curve));
    }

    /// Sets a metadata entry, replacing an earlier value of the key.
    pub fn set_metadata(&mut self, key: String, value: String)
        ensures
            exists|i: int| 0 <= i < final(self).metadata_entries().len()
                && #[trigger] final(self).metadata_entries()[i] == (key@, value@),
            final(self).bindings() == old(self).bindings(),
            final(self).inputs() == old(self).inputs(),
            final(self).params() == old(self).params(),
    {
        let mut i: usize = 0;
        while i < self.metadata.len()
            invariant
                i <= self.metadata@.len(),
                self.bindings() == old(self).bindings(),
                self.inputs() == old(self).inputs(),
                self.params() == old(self).params(),
            decreases self.metadata@.len() - i,
        {
            if self.metadata[i].0 == key {
                let ghost kv = (key@, value@);
                self.metadata.set(i, (key, value));
                assert(self.metadata_entries()[i as int] == kv);
                return;
            }
            i = i + 1;
        }
        let ghost kv = (key@, value@);
        self.metadata.push((key, value));
        assert(self.metadata_entries()[self.metadata@.len() - 1] == kv);
    }

    /// Value of a metadata key.
    pub fn get_metadata(&self, key: &str) -> (r: Option<&str>)
        ensures
            r matches Some(v) ==> exists|i: int| 0 <= i < self.metadata_entries().len()
                && #[trigger] self.metadata_entries()[i] == (key@, v@),
            r is None ==> forall|i: int| 0 <= i < self.metadata_entries().len() ==> (#[trigger] self.metadata_entries()[i]).0 != key@,
    {
        let mut i: usize = 0;
        while i < self.metadata.len()
            invariant
                i <= self.metadata@.len(),
                forall|j: int| 0 <= j < i ==> (#[trigger] self.metadata_entries()[j]).0 != key@,
            decreases self.metadata@.len() - i,
        {
            if crate::text::same_text(self.metadata[i].0.as_str(), key) {
                let v = self.metadata[i].1.as_str();
                assert(self.metadata_entries()[i as int] == (key@, v@));
                return Some(v);
            }
            i = i + 1;
        }
        None
    }

    /// Checks that every bound curve shares the first curve's depths. A curve
    /// on the same depth storage passes at once; another must have as many
    /// depths, each passing `same_depth` against the reference's depth at the
    /// same index. The first curve that fails is reported: by its counts, or
    /// by the first index at which its depths differ.
    pub fn validate_depth_compatibility<F: Fn(&N, &N) -> bool>(&self, same_depth: F) -> (r: Result<(), DepthMismatch<N>>)
        where
            N: Copy,
        requires
            forall|a: &N, b: &N| call_requires(same_depth, (a, b)),
        ensures
            depth_check_allows(*self, same_depth, r),
    {
        let n = self.curves.len();
        if n == 0 {
            return Ok(());
        }
        let reference: &Arc<CurveData<N>> = &self.curves[0].1;
        let ref_depths = reference.series.depths();
        let ref_len = ref_depths.len();
        let mut k: usize = 1;
        while k < n
            invariant
                n == self.bindings().len(),
                1 <= k <= n,
                ref_depths@ == self.bindings()[0].1.series.depths_view(),
                *ref_depths == self.bindings()[0].1.series.storage(),
                ref_len == ref_depths@.len(),
                forall|a: &N, b: &N| call_requires(same_depth, (a, b)),
                forall|j: int| 0 < j < k ==> compatible_with(same_depth, self.bindings()[0].1, #[trigger] self.bindings()[j].1),
            decreases n - k,
        {
            let entry = &self.curves[k];
            let depths = entry.1.series.depths();
            if !same_allocation(ref_depths, depths) {
                let len = depths.len();
                if len != ref_len {
                    let curve = entry.0.clone();
                    return Err(DepthMismatch::Length { curve, found: len, expected: ref_len });
                }
                let mut i: usize = 0;
                while i < len
                    invariant
                        i <= len,
                        len == ref_len,
                        len == depths@.len(),
                        ref_len == ref_depths@.len(),
                        forall|a: &N, b: &N| call_requires(same_depth, (a, b)),
                        forall|j: int| 0 <= j < i ==> call_ensures(same_depth, (&ref_depths@[j], &depths@[j]), true),
                        1 <= k < n,
                        n == self.bindings().len(),
                        self.bindings()[k as int].0 == entry.0@,
                        self.bindings()[k as int].1.series.depths_view() == depths@,
                        ref_depths@ == self.bindings()[0].1.series.depths_view(),
                    decreases len - i,
                {
                    let ok = same_depth(&ref_depths[i], &depths[i]);
                    if !ok {
                        let curve = entry.0.clone();
                        return Err(DepthMismatch::Value { curve, index: i, expected: ref_depths[i], found: depths[i] });
                    }
                    i = i + 1;
                }
            }
            k = k + 1;
        }
        Ok(())
    }

    /// Depth index of the first bound curve.
    pub fn get_depths(&self) -> (r: Option<&Arc<Vec<N>>>)
        ensures
            r is None == (self.bindings().len() == 0),
            r matches Some(d) ==> *d == self.bindings()[0].1.series.storage(),
    {
        if self.curves.len() == 0 {
            None
        } else {
            Some(self.curves[0].1.series.depths())
        }
    }

    /// Whether some bound curve has a given type.
    pub fn has_curve_type(&self, curve_type: CurveDataType) -> (r: bool)
        ensures
            r == exists|j: int| 0 <= j < self.bindings().len() && (#[trigger] self.bindings()[j]).1.curve_type == curve_type,
    {
        let mut i: usize = 0;
        while i < self.curves.len()
            invariant
                i <= self.curves@.len(),
                forall|j: int| 0 <= j < i ==> (#[trigger] self.bindings()[j]).1.curve_type != curve_type,
            decreases self.curves@.len() - i,
        {
            if self.curves[i].1.curve_type == curve_type {
                assert(self.bindings()[i as int].1.curve_type == curve_type);
                return true;
            }
            i = i + 1;
        }
        false
    }
}

/// What the depth check may report for a context, given the depth test.
pub open spec fn depth_check_allows<N, F: Fn(&N, &N) -> bool>(ctx: ExecutionContext<N>, same_depth: F, r: Result<(), DepthMismatch<N>>) -> bool {
    let b = ctx.bindings();
    match r {
        Ok(()) => forall|k: int| 0 < k < b.len() ==> compatible_with(same_depth, b[0].1, #[trigger] b[k].1),
        Err(DepthMismatch::Length { curve, found, expected }) => exists|k: int|
            0 < k < b.len() && (#[trigger] b[k]).0 == curve@
            && found == b[k].1.series.depths_view().len()
            && expected == b[0].1.series.depths_view().len()
            && found != expected,
        Err(DepthMismatch::Value { curve, index, expected, found }) => exists|k: int|
            0 < k < b.len() && (#[trigger] b[k]).0 == curve@
            && index < b[0].1.series.depths_view().len()
            && expected == b[0].1.series.depths_view()[index as int]
            && found == b[k].1.series.depths_view()[index as int]
            && b[k].1.series.depths_view().len() == b[0].1.series.depths_view().len()
            && (forall|j: int| 0 <= j < index ==> call_ensures(same_depth,
                (&b[0].1.series.depths_view()[j], &b[k].1.series.depths_view()[j]), true))
            && call_ensures(same_depth,
                (&b[0].1.series.depths_view()[index as int], &b[k].1.series.depths_view()[index as int]), false),
    }
}

/// Two curves on distinct depth storage, of equal length, whose depths pass
/// a deterministic test up to index `i` and fail it at `i`: the check
/// reports a value mismatch at `i` on the second curve.
pub proof fn lemma_first_divergence_reported<N, F: Fn(&N, &N) -> bool>(
    ctx: ExecutionContext<N>,
    same_depth: F,
    i: int,
    r: Result<(), DepthMismatch<N>>,
)
    requires
        ctx.bindings().len() == 2,
        ctx.bindings()[1].1.series.storage() != ctx.bindings()[0].1.series.storage(),
        ctx.bindings()[1].1.series.depths_view().len() == ctx.bindings()[0].1.series.depths_view().len(),
        0 <= i < ctx.bindings()[0].1.series.depths_view().len(),
        forall|a: &N, b: &N, x: bool, y: bool| call_ensures(same_depth, (a, b), x) && call_ensures(same_depth, (a, b), y) ==> x == y,
        forall|j: int| 0 <= j < i ==> call_ensures(same_depth,
            (&ctx.bindings()[0].1.series.depths_view()[j], &ctx.bindings()[1].1.series.depths_view()[j]), true),
        call_ensures(same_depth, (&ctx.bindings()[0].1.series.depths_view()[i], &ctx.bindings()[1].1.series.depths_view()[i]), false),
        depth_check_allows(ctx, same_depth, r),
    ensures
        r matches Err(DepthMismatch::Value { curve, index, expected, found }) && curve@ == ctx.bindings()[1].0 && index == i,
{
    let b = ctx.bindings();
    let d0 = b[0].1.series.depths_view();
    let d1 = b[1].1.series.depths_view();
    match r {
        Ok(()) => {
        },
        Err(DepthMismatch::Length { curve, found, expected }) => {
            let k = choose|k: int| 0 < k < b.len() && (#[trigger] b[k]).0 == curve@
                && found == b[k].1.series.depths_view().len()
                && expected == b[0].1.series.depths_view().len()
                && found != expected;
        },
        Err(DepthMismatch::Value { curve, index, expected, found }) => {
            let k = choose|k: int| 0 < k < b.len() && (#[trigger] b[k]).0 == curve@
                && index < b[0].1.series.depths_view().len()
                && expected == b[0].1.series.depths_view()[index as int]
                && found == b[k].1.series.depths_view()[index as int]
                && b[k].1.series.depths_view().len() == b[0].1.series.depths_view().len()
                && (forall|j: int| 0 <= j < index ==> call_ensures(same_depth,
                    (&b[0].1.series.depths_view()[j], &b[k].1.series.depths_view()[j]), true))
                && call_ensures(same_depth,
                    (&b[0].1.series.depths_view()[index as int], &b[k].1.series.depths_view()[index as int]), false);
        },
    }
}

} // verus!
