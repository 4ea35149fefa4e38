//! Files in the temporary directory that hold downloads.
use vstd::prelude::*;

use crate::text::{joined_path, path_join};

verus! {

/// Why a temporary file could not be named.
pub enum TmpFileError {
    MakePathError,
}

/// A file in the temporary directory, named by its path.
pub struct TmpFile {
    pub path: String,
}

impl TmpFile {
    /// Names the file `filename` in the temporary directory. `temp_dir` is the
    /// temporary directory's path, or `None` where that path is not Unicode;
    /// then no path can be made.
    pub fn new(temp_dir: Option<&str>, filename: &str) -> (res: Result<TmpFile, TmpFileError>)
        ensures
            match temp_dir {
                Some(dir) => res matches Ok(f) && f.path@ == joined_path(dir@, filename@),
                None => res matches Err(TmpFileError::MakePathError),
            },
    {
        match temp_dir {
            Some(dir) => Ok(TmpFile { path: path_join(dir, filename) }),
            None => Err(TmpFileError::MakePathError),
        }
    }
}

} // verus!
