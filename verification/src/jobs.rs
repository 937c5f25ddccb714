//! Work to be done in the background.

use vstd::prelude::*;

verus! {

/// A unit of background work, identified by an opaque id.
#[derive(Debug)]
pub struct Job {
    pub id: String,
    pub params: JobParams,
}

/// What a job is asked to do.
#[derive(Debug)]
pub enum JobParams {
    Copy(CopyParams),
}

/// Source and destination paths of a copy.
#[derive(Debug)]
pub struct CopyParams {
    pub src: String,
    pub dst: String,
}

} // verus!
