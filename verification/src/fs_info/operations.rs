//! File system operations, as recorded in the history.
use vstd::prelude::*;

verus! {

/// File system operation unit.
#[derive(Debug, Clone, PartialEq, Eq)]
pub struct OperationUnitFS {
    pub operation: OperationFS,
    pub file_source: String,
    pub file_destiny: String,
}

/// File system operations supported.
#[derive(Debug, PartialEq, Eq, Clone, Copy, Structural)]
pub enum OperationFS {
    Nothing,
    Copy,
    Move,
    Rename,
    New,
    ChangeDir,
    Remove,
    StartRange,
    EndRange,
}

impl OperationUnitFS {
    pub fn new(operation: OperationFS, file_source: String, file_destiny: String) -> (u: Self)
        ensures
            u == (OperationUnitFS { operation, file_source, file_destiny }),
    {
        OperationUnitFS { operation, file_source, file_destiny }
    }
}

} // verus!
