//! Provenance records of executions.

use vstd::prelude::*;
use crate::error::UdfError;
use crate::types::ExecutionStatus;

verus! {

/// Reference to an input curve used by an execution.
#[derive(Debug, Clone)]
pub struct InputReference {
    /// Curve identifier.
    pub curve_id: uuid::Uuid,
    /// Curve version at the time of execution.
    pub version: i64,
    /// Content hash of the curve's blob.
    pub parquet_hash: String,
}

/// Provenance record of one execution.
///
/// A record is open from `begin` until `finish`, which sets its terminal
/// status and completion time once; the output fields are stamped only on a
/// completed record.
#[derive(Debug, Clone)]
pub struct ExecutionRecord {
    /// Execution identifier.
    pub id: uuid::Uuid,
    /// Composite UDF id, `provider:udf`.
    pub udf_id: String,
    /// UDF version at the time of execution.
    pub udf_version: String,
    /// Input curves, in binding order.
    pub inputs: Vec<InputReference>,
    /// Serialized snapshot of the parameters (JSON text).
    pub parameters: String,
    /// Identifier of the registered output curve.
    pub output_curve_id: Option<uuid::Uuid>,
    /// Content hash of the output blob.
    pub output_parquet_hash: Option<String>,
    /// Start time, in milliseconds since the Unix epoch.
    pub started_at: i64,
    /// Completion time, in milliseconds since the Unix epoch.
    pub completed_at: Option<i64>,
    /// Version of the engine that ran the execution.
    pub compute_app_version: String,
    /// Status; terminal once `completed_at` is set.
    pub status: ExecutionStatus,
    /// Error text of a failed or cancelled execution.
    pub error_message: Option<String>,
}

impl ExecutionRecord {
    /// The execution has not finished yet.
    pub open spec fn is_open(&self) -> bool {
        self.completed_at.is_none()
    }

    /// An open record has no error and no output yet; a finished one has an
    /// error text exactly when it did not complete; only a completed record
    /// carries an output.
    pub open spec fn wf(&self) -> bool {
        &&& self.is_open() ==> self.status == ExecutionStatus::Failed && self.error_message.is_none()
        &&& !self.is_open() ==> ((self.status == ExecutionStatus::Completed) == self.error_message.is_none())
        &&& (self.output_curve_id.is_some() || self.output_parquet_hash.is_some()) ==> self.status == ExecutionStatus::Completed
    }

    /// Starts the record of an execution. Until it finishes it counts as
    /// failed, with no inputs and no output.
    pub fn begin(
        id: uuid::Uuid,
        udf_id: String,
        udf_version: String,
        parameters: String,
        started_at: i64,
        compute_app_version: String,
    ) -> (r: ExecutionRecord)
        ensures
            r.wf(),
            r.is_open(),
            r.id == id,
            r.udf_id == udf_id,
            r.udf_version == udf_version,
            r.parameters == parameters,
            r.started_at == started_at,
            r.compute_app_version == compute_app_version,
            r.inputs@.len() == 0,
            r.output_curve_id.is_none(),
            r.output_parquet_hash.is_none(),
            r.status == ExecutionStatus::Failed,
            r.error_message.is_none(),
    {
        ExecutionRecord {
            id,
            udf_id,
            udf_version,
            inputs: Vec::new(),
            parameters,
            output_curve_id: None,
            output_parquet_hash: None,
            started_at,
            completed_at: None,
            compute_app_version,
            status: ExecutionStatus::Failed,
            error_message: None,
        }
    }

    /// Finishes an open record with the outcome of the execution: the inputs
    /// it read, or the error that stopped it. Cancellation gives the
    /// `Cancelled` status, any other error `Failed`.
    pub fn finish(&mut self, outcome: Result<Vec<InputReference>, UdfError>, completed_at: i64)
        requires
            old(self).wf(),
            old(self).is_open(),
        ensures
            final(self).wf(),
            final(self).completed_at == Some(completed_at),
            final(self).id == old(self).id,
            final(self).udf_id == old(self).udf_id,
            final(self).udf_version == old(self).udf_version,
            final(self).parameters == old(self).parameters,
            final(self).started_at == old(self).started_at,
            final(self).compute_app_version == old(self).compute_app_version,
            final(self).output_curve_id == old(self).output_curve_id,
            final(self).output_parquet_hash == old(self).output_parquet_hash,
            match outcome {
                Ok(inputs) => final(self).status == ExecutionStatus::Completed
                    && final(self).inputs == inputs
                    && final(self).error_message.is_none(),
                Err(e) => final(self).status == (if e is Cancelled {
                    ExecutionStatus::Cancelled
                } else {
                    ExecutionStatus::Failed
                }) && final(self).inputs == old(self).inputs
                    && final(self).error_message is Some
                    && final(self).error_message.unwrap()@ == e.text(),
            },
    {
        match outcome {
            Ok(inputs) => {
                self.inputs = inputs;
                self.status = ExecutionStatus::Completed;
                self.error_message = None;
            },
            Err(e) => {
                self.status = match e {
                    UdfError::Cancelled => ExecutionStatus::Cancelled,
                    _ => ExecutionStatus::Failed,
                };
                self.error_message = Some(e.to_text());
            },
        }
        self.completed_at = Some(completed_at);
    }

    /// Stamps the stored output's content hash and curve id on a completed
    /// record.
    pub fn stamp_output(&mut self, curve_id: uuid::Uuid, parquet_hash: String)
        requires
            old(self).wf(),
            old(self).status == ExecutionStatus::Completed,
        ensures
            final(self).wf(),
            final(self).output_curve_id == Some(curve_id),
            final(self).output_parquet_hash == Some(parquet_hash),
            final(self).status == old(self).status,
            final(self).completed_at == old(self).completed_at,
            final(self).id == old(self).id,
            final(self).udf_id == old(self).udf_id,
            final(self).udf_version == old(self).udf_version,
            final(self).inputs == old(self).inputs,
            final(self).parameters == old(self).parameters,
            final(self).started_at == old(self).started_at,
            final(self).compute_app_version == old(self).compute_app_version,
            final(self).error_message == old(self).error_message,
    {
        self.output_parquet_hash = Some(parquet_hash);
        self.output_curve_id = Some(curve_id);
    }
}

} // verus!
