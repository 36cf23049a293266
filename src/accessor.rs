use vstd::prelude::*;
use crate::access_control::{is_read_only_refusal, AccessPolicy};
use crate::error::{FileJackError, Result};
use crate::probe::{is_resolved, path_exists};

verus! {

// The checks made around each file operation, beyond path validation: on
// the handle once a file is open, on the size of what is written, and on
// both ends of a move or a copy. Opening, reading and writing are done by
// the caller, through the handle that these checks speak of.

/// Refuses a handle that does not refer to a regular file (a directory, a
/// device, a pipe).
pub fn require_regular_file(is_regular: bool) -> (r: Result<()>)
    ensures
        r is Ok <==> is_regular,
        r matches Err(e) ==> e is InvalidPath,
{
    if is_regular {
        Ok(())
    } else {
        Err(FileJackError::InvalidPath(String::from_str("Not a regular file")))
    }
}

impl AccessPolicy {
    /// The checks made on a file opened for reading, before its contents
    /// are read: its size, taken from the open handle, against the limit;
    /// then that the handle refers to a regular file.
    pub fn check_opened_file(&self, size: u64, is_regular: bool) -> (r: Result<()>)
        ensures
            r is Ok <==> ((self.max_file_size == 0 || size <= self.max_file_size) && is_regular),
            r matches Err(e) ==> if self.max_file_size == 0 || size <= self.max_file_size {
                e is InvalidPath
            } else {
                e is PermissionDenied
            },
    {
        if let Err(e) = self.validate_file_size(size) {
            return Err(e);
        }
        require_regular_file(is_regular)
    }

    /// Validates a write of `size` bytes to `path`: the path first, then
    /// the size. Returns the path to open.
    pub fn validate_write_content(&self, path: &str, size: u64) -> (r: Result<String>)
        ensures
            self.read_only ==> (r matches Err(e) && is_read_only_refusal(e)),
            r matches Ok(p) ==> p@ == path@ && !self.read_only && (self.max_file_size == 0 || size
                <= self.max_file_size) && self.extension_ok(path@) && self.hidden_ok(path@),
            r matches Err(e) ==> e is InvalidPath || e is FileNotFound || e is Io
                || e is PermissionDenied,
    {
        let target = match self.validate_write(path) {
            Ok(p) => p,
            Err(e) => return Err(e),
        };
        if let Err(e) = self.validate_file_size(size) {
            return Err(e);
        }
        Ok(target)
    }
}

impl AccessPolicy {
    /// Validates the deletion of `path`: the path is validated as a write
    /// target and must exist. Returns the path unchanged.
    pub fn validate_delete(&self, path: &str) -> (r: Result<String>)
        ensures
            self.read_only ==> (r matches Err(e) && is_read_only_refusal(e)),
            r matches Ok(p) ==> p@ == path@ && !self.read_only && self.extension_ok(path@)
                && self.hidden_ok(path@),
            r matches Err(e) ==> e is InvalidPath || e is FileNotFound || e is Io
                || e is PermissionDenied,
    {
        let target = match self.validate_write(path) {
            Ok(p) => p,
            Err(e) => return Err(e),
        };
        if !path_exists(target.as_str()) {
            return Err(FileJackError::FileNotFound(target));
        }
        Ok(target)
    }

    /// Validates moving `from` to `to`: the source as a deletion (it must
    /// exist), then the destination as a write target, each on its own.
    /// Returns both paths unchanged.
    pub fn validate_move(&self, from: &str, to: &str) -> (r: Result<(String, String)>)
        ensures
            self.read_only ==> (r matches Err(e) && is_read_only_refusal(e)),
            r matches Ok((a, b)) ==> a@ == from@ && b@ == to@ && self.extension_ok(from@)
                && self.hidden_ok(from@) && self.extension_ok(to@) && self.hidden_ok(to@),
            r matches Err(e) ==> e is InvalidPath || e is FileNotFound || e is Io
                || e is PermissionDenied,
    {
        let source = match self.validate_delete(from) {
            Ok(p) => p,
            Err(e) => return Err(e),
        };
        let target = match self.validate_write(to) {
            Ok(p) => p,
            Err(e) => return Err(e),
        };
        Ok((source, target))
    }

    /// Validates copying `from` to `to`: the source for reading, the
    /// destination as a write target, each on its own. Returns the resolved
    /// source and the destination unchanged.
    pub fn validate_copy(&self, from: &str, to: &str) -> (r: Result<(String, String)>)
        ensures
            self.read_only ==> (r is Err),
            r matches Ok((a, b)) ==> is_resolved(a@) && b@ == to@ && self.extension_ok(a@)
                && self.hidden_ok(a@) && self.extension_ok(to@) && self.hidden_ok(to@),
            r matches Err(e) ==> e is InvalidPath || e is FileNotFound || e is Io
                || e is PermissionDenied,
    {
        let source = match self.validate_read(from) {
            Ok(p) => p,
            Err(e) => return Err(e),
        };
        let target = match self.validate_write(to) {
            Ok(p) => p,
            Err(e) => return Err(e),
        };
        Ok((source, target))
    }
}

} // verus!
