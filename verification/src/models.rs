//! Records of the collector's store.

use vstd::prelude::*;

verus! {

/// One upload of a metric to the collector, and how far it has come.
pub struct UploadJob {
    pub id: i32,
    pub metric_id: i32,
    pub name: String,
    pub done: bool,
    pub num_attempts: i32,
    pub created_at: String,
    pub updated_at: String,
}

} // verus!
