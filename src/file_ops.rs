use vstd::prelude::*;
use crate::error::{FileJackError, Result};
use crate::access_control::{existing_ancestor, resolution_error};
use crate::path::{is_under, is_under_path, parent, parent_of};
use crate::probe::{canonicalize, is_resolved, path_exists, ResolveFailure};

verus! {

/// Reads files, optionally confined to a base directory.
#[derive(Debug, Clone)]
pub struct FileReader {
    base_path: Option<String>,
}

/// Writes files, optionally confined to a base directory, creating missing
/// parent directories when asked to.
#[derive(Debug, Clone)]
pub struct FileWriter {
    base_path: Option<String>,
    create_dirs: bool,
}

/// Resolves `path`; every failure is reported as `Io`.
fn resolve_or_io(path: &str) -> (r: Result<String>)
    ensures
        r matches Ok(c) ==> is_resolved(c@),
        r matches Err(e) ==> e is Io,
{
    match canonicalize(path) {
        Ok(c) => Ok(c),
        Err(ResolveFailure::NotFound) => {
            let mut msg = String::from_str("No such file or directory: ");
            msg.append(path);
            Err(FileJackError::Io(msg))
        },
        Err(ResolveFailure::Failed(msg)) => Err(FileJackError::Io(msg)),
    }
}

fn outside_base(path: &str) -> (r: FileJackError)
    ensures
        r is PermissionDenied,
{
    let mut msg = String::from_str("Path ");
    msg.append(path);
    msg.append(" is outside allowed directory");
    FileJackError::PermissionDenied(msg)
}

pub open spec fn opt_view(o: Option<String>) -> Option<Seq<char>> {
    match o {
        Some(s) => Some(s@),
        None => None,
    }
}

impl FileReader {
    /// A reader confined to `base_path` when one is given.
    pub fn new(base_path: Option<String>) -> (r: Self)
        ensures
            r.spec_base_path() == opt_view(base_path),
    {
        FileReader { base_path }
    }

    pub closed spec fn spec_base_path(&self) -> Option<Seq<char>> {
        opt_view(self.base_path)
    }

    /// The directory the reader is confined to, if any.
    pub fn base_path(&self) -> (r: &Option<String>)
        ensures
            opt_view(*r) == self.spec_base_path(),
    {
        &self.base_path
    }

    /// Resolves `path` and, when there is a base directory, checks that the
    /// resolved path lies under the resolved base (`decide_in_base`). A
    /// failure to resolve `path` is reported as `resolution_error` says; a
    /// base that does not resolve is reported as `Io`.
    pub fn validate_path(&self, path: &str) -> (r: Result<String>)
        ensures
            r matches Ok(c) ==> is_resolved(c@),
            r matches Err(e) ==> (e is FileNotFound && e->FileNotFound_0@ == path@) || e is Io
                || e is PermissionDenied,
            r matches Err(e) && e is PermissionDenied ==> self.spec_base_path() is Some,
    {
        let canonical = match canonicalize(path) {
            Ok(c) => c,
            Err(failure) => return Err(resolution_error(path, failure)),
        };
        match &self.base_path {
            Some(base) => {
                let base_canonical = match resolve_or_io(base.as_str()) {
                    Ok(b) => b,
                    Err(e) => return Err(e),
                };
                decide_in_base(canonical, base_canonical.as_str())
            },
            None => Ok(canonical),
        }
    }

    /// Whether `path` names an existing entry.
    pub fn file_exists(&self, path: &str) -> bool {
        path_exists(path)
    }
}

impl FileWriter {
    /// A writer confined to `base_path` when one is given; with
    /// `create_dirs` it creates missing parent directories.
    pub fn new(base_path: Option<String>, create_dirs: bool) -> (r: Self)
        ensures
            r.spec_base_path() == opt_view(base_path),
            r.spec_create_dirs() == create_dirs,
    {
        FileWriter { base_path, create_dirs }
    }

    pub closed spec fn spec_base_path(&self) -> Option<Seq<char>> {
        opt_view(self.base_path)
    }

    pub closed spec fn spec_create_dirs(&self) -> bool {
        self.create_dirs
    }

    /// The directory the writer is confined to, if any.
    pub fn base_path(&self) -> (r: &Option<String>)
        ensures
            opt_view(*r) == self.spec_base_path(),
    {
        &self.base_path
    }

    /// Whether missing parent directories are created.
    pub fn create_dirs(&self) -> (r: bool)
        ensures
            r == self.spec_create_dirs(),
    {
        self.create_dirs
    }

    /// Checks that `path` may be written and returns it unchanged. The path
    /// must have a parent. With a base directory, the nearest existing
    /// ancestor of that parent is resolved and must lie under the resolved
    /// base (`decide_parent_in_base`); a base or ancestor that does not
    /// resolve is reported as `Io`.
    pub fn validate_path(&self, path: &str) -> (r: Result<String>)
        ensures
            r matches Ok(p) ==> p@ == path@ && parent(path@) is Some,
            parent(path@) is None ==> (r matches Err(e) && e is InvalidPath),
            self.spec_base_path() is None && parent(path@) is Some ==> (r matches Ok(p) && p@
                == path@),
            r matches Err(e) ==> e is InvalidPath || e is Io || e is PermissionDenied,
            r matches Err(e) && e is PermissionDenied ==> self.spec_base_path() is Some,
    {
        let parent_path = match parent_of(path) {
            Some(p) => p,
            None => {
                return Err(
                    FileJackError::InvalidPath(String::from_str("Path has no parent directory")),
                );
            },
        };
        match &self.base_path {
            Some(base) => {
                let base_canonical = match resolve_or_io(base.as_str()) {
                    Ok(b) => b,
                    Err(e) => return Err(e),
                };
                let ancestor = match existing_ancestor(parent_path.as_str()) {
                    Ok(a) => a,
                    Err(e) => return Err(e),
                };
                let ancestor_canonical = match resolve_or_io(ancestor.as_str()) {
                    Ok(c) => c,
                    Err(e) => return Err(e),
                };
                decide_parent_in_base(path, ancestor_canonical.as_str(), base_canonical.as_str())
            },
            None => Ok(String::from_str(path)),
        }
    }
}

/// The read decision below a base directory: the resolved path must lie
/// under the resolved base.
pub fn decide_in_base(canonical: String, base_resolved: &str) -> (r: Result<String>)
    ensures
        r is Ok <==> is_under(canonical@, base_resolved@),
        r matches Ok(c) ==> c@ == canonical@,
        r matches Err(e) ==> e is PermissionDenied,
{
    if is_under_path(canonical.as_str(), base_resolved) {
        Ok(canonical)
    } else {
        Err(outside_base(canonical.as_str()))
    }
}

/// The write decision below a base directory: the resolved nearest
/// existing ancestor of the target's parent must lie under the resolved
/// base. Returns the target unchanged.
pub fn decide_parent_in_base(path: &str, ancestor_resolved: &str, base_resolved: &str) -> (r:
    Result<String>)
    ensures
        r is Ok <==> is_under(ancestor_resolved@, base_resolved@),
        r matches Ok(p) ==> p@ == path@,
        r matches Err(e) ==> e is PermissionDenied,
{
    if is_under_path(ancestor_resolved, base_resolved) {
        Ok(String::from_str(path))
    } else {
        Err(outside_base(path))
    }
}

} // verus!
