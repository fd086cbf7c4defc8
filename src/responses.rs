//! Plain records exchanged with the user interface and the layout store.

use vstd::prelude::*;

verus! {

/// Connection state of the metadata store.
#[derive(Debug, Clone)]
pub struct DataForgeStatus {
    pub connected: bool,
    pub data_dir: Option<String>,
    pub db_exists: bool,
    pub provider_count: usize,
    pub udf_count: usize,
    pub error: Option<String>,
}

/// A workspace of the metadata store.
#[derive(Debug, Clone)]
pub struct WorkspaceInfo {
    pub id: String,
    pub name: String,
    pub created_at: String,
}

/// A well of the metadata store.
#[derive(Debug, Clone)]
pub struct WellInfo {
    pub id: String,
    pub name: String,
    pub uwi: Option<String>,
    pub field: Option<String>,
    pub curve_count: i64,
}

/// An input curve of a provenance record, with its mnemonic.
#[derive(Debug, Clone)]
pub struct InputReferenceResponse {
    pub curve_id: String,
    pub mnemonic: String,
    pub parquet_hash: String,
    pub version: i64,
}

/// Outcome of saving an output curve.
#[derive(Debug, Clone)]
pub struct SaveOutputCurveResponse {
    pub success: bool,
    pub curve_id: Option<String>,
    pub error: Option<String>,
}

/// A saved chart layout of a workspace.
#[derive(Debug, Clone)]
pub struct ChartLayout {
    pub id: String,
    pub workspace_id: String,
    pub layout_json: String,
    pub version: i32,
    pub sync_version: i32,
    pub sync_status: String,
    pub created_at: String,
    pub updated_at: String,
}

} // verus!
