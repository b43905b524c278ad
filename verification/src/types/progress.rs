use vstd::prelude::*;

verus! {

/// Progress of a batch: stage label, position and file being processed.
#[derive(Debug, Clone)]
pub struct ProgressState {
    pub stage: String,
    pub current: usize,
    pub total: usize,
    pub filename: String,
}

impl ProgressState {
    pub fn new(stage: &str, current: usize, total: usize, filename: &str) -> (res: Self)
        ensures
            res.stage@ == stage@,
            res.current == current,
            res.total == total,
            res.filename@ == filename@,
    {
        ProgressState {
            stage: stage.to_string(),
            current,
            total,
            filename: filename.to_string(),
        }
    }
}

} // verus!
