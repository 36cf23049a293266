use vstd::prelude::*;
use crate::decimal::decimal_text;
use crate::error::{FileJackError, Result};
use crate::path::{
    components, components_of, extension, extension_of, is_absolute, is_absolute_path,
    is_ancestor_or_self, is_hidden, is_hidden_path, is_same_path, is_under, is_under_path,
    join, join_components, same_path, texts,
};
use crate::probe::{canonicalize, is_link, is_resolved, lower_of, lowercase, path_exists, ResolveFailure};

verus! {

/// Access control policy for filesystem operations.
#[derive(Debug, Clone)]
pub struct AccessPolicy {
    /// Directories under which access is allowed; empty allows every path
    /// that is not denied.
    pub allowed_paths: Vec<String>,
    /// Directories under which access is denied; this takes precedence over
    /// `allowed_paths`.
    pub denied_paths: Vec<String>,
    /// Extensions allowed (compared without regard to case); empty allows
    /// every extension that is not denied.
    pub allowed_extensions: Vec<String>,
    /// Extensions denied (compared without regard to case); this takes
    /// precedence over `allowed_extensions`.
    pub denied_extensions: Vec<String>,
    /// Largest file size in bytes; 0 means no limit.
    pub max_file_size: u64,
    /// Whether a path may be reached through a symbolic link.
    pub allow_symlinks: bool,
    /// Whether files whose name begins with `.` are accessible.
    pub allow_hidden_files: bool,
    /// Whether every write operation is refused.
    pub read_only: bool,
}

/// The size limit of a restricted policy: 10 MiB.
pub const RESTRICTED_MAX_FILE_SIZE: u64 = 10485760;

/// The texts of a list of resolved roots; `None` marks a root that could
/// not be resolved.
pub open spec fn roots_view(v: Seq<Option<String>>) -> Seq<Option<Seq<char>>> {
    v.map_values(|o: Option<String>| match o {
        Some(s) => Some(s@),
        None => None,
    })
}

/// `p` is one of the resolved roots or lies below one of them.
pub open spec fn under_some(p: Seq<char>, roots: Seq<Option<Seq<char>>>) -> bool {
    exists|i: int| 0 <= i < roots.len() && (#[trigger] roots[i] matches Some(r) && is_under(p, r))
}

/// The lower-case form of each text.
pub open spec fn folded(v: Seq<String>) -> Seq<Seq<char>> {
    v.map_values(|s: String| lower_of(s@))
}

/// The extension rule on lower-cased texts: a denied extension is refused;
/// where an allow-list is given, only its extensions are accepted, and a
/// path without an extension is refused.
pub open spec fn extension_permitted(
    ext: Option<Seq<char>>,
    denied: Seq<Seq<char>>,
    allowed: Seq<Seq<char>>,
) -> bool {
    match ext {
        Some(e) => !denied.contains(e) && (allowed.len() == 0 || allowed.contains(e)),
        None => allowed.len() == 0,
    }
}

/// The lower-case form of an optional text.
pub open spec fn fold_option(o: Option<Seq<char>>) -> Option<Seq<char>> {
    match o {
        Some(e) => Some(lower_of(e)),
        None => None,
    }
}

pub open spec fn opt_text(o: Option<String>) -> Option<Seq<char>> {
    match o {
        Some(s) => Some(s@),
        None => None,
    }
}

impl AccessPolicy {
    /// The containment rule: a path under a denied root is refused, and
    /// where allowed roots are configured the path must lie under one of
    /// them.
    pub open spec fn roots_permit(
        &self,
        p: Seq<char>,
        denied: Seq<Option<Seq<char>>>,
        allowed: Seq<Option<Seq<char>>>,
    ) -> bool {
        &&& !under_some(p, denied)
        &&& (self.allowed_paths.len() == 0 || under_some(p, allowed))
    }

    pub open spec fn extension_ok(&self, p: Seq<char>) -> bool {
        extension_permitted(
            fold_option(extension(p)),
            folded(self.denied_extensions@),
            folded(self.allowed_extensions@),
        )
    }

    pub open spec fn hidden_ok(&self, p: Seq<char>) -> bool {
        self.allow_hidden_files || !is_hidden(p)
    }

    /// The symbolic-link rule: where links are not allowed, a path that
    /// resolves elsewhere must not itself be a link.
    pub open spec fn symlink_ok(&self, original: Seq<char>, canonical: Seq<char>, link: bool) -> bool {
        self.allow_symlinks || same_path(original, canonical) || !link
    }

    /// Whether a read of `original` is permitted, given its resolved form,
    /// the resolved denied and allowed roots, and whether `original` is a
    /// symbolic link.
    pub open spec fn read_permitted(
        &self,
        original: Seq<char>,
        canonical: Seq<char>,
        denied: Seq<Option<Seq<char>>>,
        allowed: Seq<Option<Seq<char>>>,
        link: bool,
    ) -> bool {
        &&& self.roots_permit(canonical, denied, allowed)
        &&& self.extension_ok(canonical)
        &&& self.hidden_ok(canonical)
        &&& self.symlink_ok(original, canonical, link)
    }

    /// What a read validation of `path` may return, whatever the filesystem
    /// reports: a resolved path that the policy permits for some resolution
    /// of the roots, or `FileNotFound` (with the path), `Io` or
    /// `PermissionDenied`.
    pub open spec fn read_validation(&self, path: Seq<char>, r: Result<String>) -> bool {
        &&& r matches Ok(c) ==> is_resolved(c@) && exists|
            d: Seq<Option<Seq<char>>>,
            a: Seq<Option<Seq<char>>>,
            link: bool,
        |
            #![trigger self.read_permitted(path, c@, d, a, link)]
            resolved_roots(d, self.denied_paths.len() as nat) && resolved_roots(
                a,
                self.allowed_paths.len() as nat,
            ) && self.read_permitted(path, c@, d, a, link)
        &&& r matches Err(e) ==> (e is FileNotFound && e->FileNotFound_0@ == path) || e is Io
            || e is PermissionDenied
    }

    /// Whether a write of `target` is permitted, given the resolved form of
    /// its nearest existing ancestor and the resolved roots. Containment is
    /// judged on the ancestor; the extension and hidden-file rules on the
    /// target as written.
    pub open spec fn write_permitted(
        &self,
        target: Seq<char>,
        ancestor: Seq<char>,
        denied: Seq<Option<Seq<char>>>,
        allowed: Seq<Option<Seq<char>>>,
    ) -> bool {
        &&& !self.read_only
        &&& self.roots_permit(ancestor, denied, allowed)
        &&& self.extension_ok(target)
        &&& self.hidden_ok(target)
    }
}

impl Default for AccessPolicy {
    /// No roots, no extension lists, no size limit; symbolic links and
    /// hidden files refused; writes allowed.
    fn default() -> (r: Self)
        ensures
            r.allowed_paths@.len() == 0,
            r.denied_paths@.len() == 0,
            r.allowed_extensions@.len() == 0,
            r.denied_extensions@.len() == 0,
            r.max_file_size == 0,
            !r.allow_symlinks,
            !r.allow_hidden_files,
            !r.read_only,
    {
        AccessPolicy {
            allowed_paths: Vec::new(),
            denied_paths: Vec::new(),
            allowed_extensions: Vec::new(),
            denied_extensions: Vec::new(),
            max_file_size: 0,
            allow_symlinks: false,
            allow_hidden_files: false,
            read_only: false,
        }
    }
}

impl AccessPolicy {
    /// A policy that allows everything: no roots, no extension lists, no
    /// size limit, symbolic links and hidden files allowed, writes allowed.
    pub fn permissive() -> (r: Self)
        ensures
            r.allowed_paths@.len() == 0,
            r.denied_paths@.len() == 0,
            r.allowed_extensions@.len() == 0,
            r.denied_extensions@.len() == 0,
            r.max_file_size == 0,
            r.allow_symlinks,
            r.allow_hidden_files,
            !r.read_only,
    {
        AccessPolicy {
            allowed_paths: Vec::new(),
            denied_paths: Vec::new(),
            allowed_extensions: Vec::new(),
            denied_extensions: Vec::new(),
            max_file_size: 0,
            allow_symlinks: true,
            allow_hidden_files: true,
            read_only: false,
        }
    }

    /// A policy confined to one directory, with a 10 MiB size limit,
    /// symbolic links and hidden files refused, writes allowed.
    pub fn restricted(allowed_path: String) -> (r: Self)
        ensures
            texts(r.allowed_paths@) == seq![allowed_path@],
            r.denied_paths@.len() == 0,
            r.allowed_extensions@.len() == 0,
            r.denied_extensions@.len() == 0,
            r.max_file_size == RESTRICTED_MAX_FILE_SIZE,
            !r.allow_symlinks,
            !r.allow_hidden_files,
            !r.read_only,
    {
        let mut allowed_paths: Vec<String> = Vec::new();
        allowed_paths.push(allowed_path);
        assert(texts(allowed_paths@) =~= seq![allowed_path@]);
        AccessPolicy {
            allowed_paths,
            denied_paths: Vec::new(),
            allowed_extensions: Vec::new(),
            denied_extensions: Vec::new(),
            max_file_size: RESTRICTED_MAX_FILE_SIZE,
            allow_symlinks: false,
            allow_hidden_files: false,
            read_only: false,
        }
    }

    /// The restricted policy for one directory, with every write refused.
    pub fn read_only(allowed_path: String) -> (r: Self)
        ensures
            texts(r.allowed_paths@) == seq![allowed_path@],
            r.denied_paths@.len() == 0,
            r.allowed_extensions@.len() == 0,
            r.denied_extensions@.len() == 0,
            r.max_file_size == RESTRICTED_MAX_FILE_SIZE,
            !r.allow_symlinks,
            !r.allow_hidden_files,
            r.read_only,
    {
        let mut policy = Self::restricted(allowed_path);
        policy.read_only = true;
        policy
    }

    /// Refuses a size above the limit, when there is a limit.
    pub fn validate_file_size(&self, size: u64) -> (r: Result<()>)
        ensures
            r is Ok <==> (self.max_file_size == 0 || size <= self.max_file_size),
            r matches Err(e) ==> e is PermissionDenied,
    {
        if self.max_file_size > 0 && size > self.max_file_size {
            let mut msg = String::from_str("File size ");
            msg.append(decimal_text(size).as_str());
            msg.append(" exceeds maximum allowed size ");
            msg.append(decimal_text(self.max_file_size).as_str());
            return Err(FileJackError::PermissionDenied(msg));
        }
        Ok(())
    }
}

/// Index of the first resolved root that `p` lies under, if any.
fn first_root_containing(p: &str, roots: &Vec<Option<String>>) -> (r: Option<usize>)
    ensures
        r is Some <==> under_some(p@, roots_view(roots@)),
        r matches Some(i) ==> i < roots.len(),
{
    let mut i: usize = 0;
    while i < roots.len()
        invariant
            i <= roots.len(),
            forall|k: int|
                0 <= k < i ==> !(#[trigger] roots_view(roots@)[k] matches Some(r) && is_under(p@, r)),
        decreases roots.len() - i,
    {
        match &roots[i] {
            Some(root) => {
                if is_under_path(p, root.as_str()) {
                    assert(roots_view(roots@)[i as int] == Some(root@));
                    return Some(i);
                }
            },
            None => {},
        }
        assert(roots_view(roots@)[i as int] == opt_text(roots@[i as int]));
        i = i + 1;
    }
    None
}

/// Whether the lower-cased text `e` equals one of `list`.
fn contains_text(list: &Vec<String>, e: &String) -> (r: bool)
    ensures
        r == texts(list@).contains(e@),
{
    let mut i: usize = 0;
    while i < list.len()
        invariant
            i <= list.len(),
            forall|k: int| 0 <= k < i ==> texts(list@)[k] != e@,
        decreases list.len() - i,
    {
        if list[i] == *e {
            assert(texts(list@)[i as int] == e@);
            return true;
        }
        i = i + 1;
    }
    false
}

/// The lower-case form of each text.
fn fold_all(list: &Vec<String>) -> (r: Vec<String>)
    ensures
        texts(r@) == folded(list@),
{
    let mut out: Vec<String> = Vec::new();
    let mut i: usize = 0;
    while i < list.len()
        invariant
            i <= list.len(),
            texts(out@) == folded(list@).take(i as int),
        decreases list.len() - i,
    {
        let low = lowercase(list[i].as_str());
        let ghost before = out@;
        out.push(low);
        assert(out@ == before.push(low));
        assert(texts(out@) =~= texts(before).push(low@));
        assert(folded(list@).take(i + 1) =~= folded(list@).take(i as int).push(lower_of(list@[i as int]@)));
        i = i + 1;
    }
    assert(folded(list@).take(list.len() as int) =~= folded(list@));
    out
}

/// Applies the extension rule to an extension and extension lists that
/// are already lower-cased.
pub fn check_folded_extension(
    ext: Option<String>,
    denied: &Vec<String>,
    allowed: &Vec<String>,
) -> (r: Result<()>)
    ensures
        r is Ok <==> extension_permitted(opt_text(ext), texts(denied@), texts(allowed@)),
        r matches Err(e) ==> e is PermissionDenied,
{
    match ext {
        Some(e) => {
            if contains_text(denied, &e) {
                let mut msg = String::from_str("File extension .");
                msg.append(e.as_str());
                msg.append(" is not allowed");
                return Err(FileJackError::PermissionDenied(msg));
            }
            if allowed.len() > 0 && !contains_text(allowed, &e) {
                let mut msg = String::from_str("File extension .");
                msg.append(e.as_str());
                msg.append(" is not in allowed extensions");
                return Err(FileJackError::PermissionDenied(msg));
            }
            Ok(())
        },
        None => {
            if allowed.len() > 0 {
                Err(
                    FileJackError::PermissionDenied(
                        String::from_str("Files without extensions are not allowed"),
                    ),
                )
            } else {
                Ok(())
            }
        },
    }
}

impl AccessPolicy {
    /// Refuses a resolved path that lies under a resolved denied root.
    pub fn check_denied_paths(&self, canonical: &str, denied: &Vec<Option<String>>) -> (r: Result<()>)
        ensures
            r is Ok <==> !under_some(canonical@, roots_view(denied@)),
            r matches Err(e) ==> e is PermissionDenied,
    {
        match first_root_containing(canonical, denied) {
            Some(_) => {
                let mut msg = String::from_str("Access to ");
                msg.append(canonical);
                msg.append(" is explicitly denied");
                Err(FileJackError::PermissionDenied(msg))
            },
            None => Ok(()),
        }
    }

    /// Where allowed roots are configured, refuses a resolved path that
    /// lies under none of the resolved ones.
    pub fn check_allowed_paths(&self, canonical: &str, allowed: &Vec<Option<String>>) -> (r: Result<()>)
        ensures
            r is Ok <==> (self.allowed_paths.len() == 0 || under_some(canonical@, roots_view(allowed@))),
            r matches Err(e) ==> e is PermissionDenied,
    {
        if self.allowed_paths.len() == 0 {
            return Ok(());
        }
        match first_root_containing(canonical, allowed) {
            Some(_) => Ok(()),
            None => {
                let mut msg = String::from_str("Path ");
                msg.append(canonical);
                msg.append(" is not in any allowed directory");
                Err(FileJackError::PermissionDenied(msg))
            },
        }
    }

    /// Applies the extension rule to the file name of `path`, comparing
    /// extensions without regard to case.
    pub fn check_extension(&self, path: &str) -> (r: Result<()>)
        ensures
            r is Ok <==> self.extension_ok(path@),
            r matches Err(e) ==> e is PermissionDenied,
    {
        let ext = match extension_of(path) {
            Some(e) => Some(lowercase(e.as_str())),
            None => None,
        };
        let denied = fold_all(&self.denied_extensions);
        let allowed = fold_all(&self.allowed_extensions);
        assert(texts(allowed@).len() == self.allowed_extensions@.len());
        check_folded_extension(ext, &denied, &allowed)
    }

    /// Refuses a hidden file unless hidden files are allowed.
    pub fn check_hidden_files(&self, path: &str) -> (r: Result<()>)
        ensures
            r is Ok <==> self.hidden_ok(path@),
            r matches Err(e) ==> e is PermissionDenied,
    {
        if !self.allow_hidden_files && is_hidden_path(path) {
            return Err(
                FileJackError::PermissionDenied(
                    String::from_str("Access to hidden files is not allowed"),
                ),
            );
        }
        Ok(())
    }

    /// Where symbolic links are not allowed, refuses a path that resolved
    /// elsewhere and is itself a link (`link`).
    pub fn check_symlinks(&self, original: &str, canonical: &str, link: bool) -> (r: Result<()>)
        ensures
            r is Ok <==> self.symlink_ok(original@, canonical@, link),
            r matches Err(e) ==> e is PermissionDenied,
    {
        if !self.allow_symlinks && !is_same_path(original, canonical) && link {
            return Err(
                FileJackError::PermissionDenied(String::from_str("Symbolic links are not allowed")),
            );
        }
        Ok(())
    }

    /// The read decision on what the filesystem reported: the resolved
    /// form of `original`, the resolved denied and allowed roots (one entry
    /// per configured root, `None` where it did not resolve), and whether
    /// `original` is a symbolic link. The checks run in order: denied
    /// roots, allowed roots, extension, hidden file, symbolic link.
    pub fn decide_read(
        &self,
        original: &str,
        canonical: String,
        denied: &Vec<Option<String>>,
        allowed: &Vec<Option<String>>,
        link: bool,
    ) -> (r: Result<String>)
        ensures
            r is Ok <==> self.read_permitted(
                original@,
                canonical@,
                roots_view(denied@),
                roots_view(allowed@),
                link,
            ),
            r matches Ok(c) ==> c@ == canonical@,
            r matches Err(e) ==> e is PermissionDenied,
    {
        if let Err(e) = self.check_denied_paths(canonical.as_str(), denied) {
            return Err(e);
        }
        if let Err(e) = self.check_allowed_paths(canonical.as_str(), allowed) {
            return Err(e);
        }
        if let Err(e) = self.check_extension(canonical.as_str()) {
            return Err(e);
        }
        if let Err(e) = self.check_hidden_files(canonical.as_str()) {
            return Err(e);
        }
        if let Err(e) = self.check_symlinks(original, canonical.as_str(), link) {
            return Err(e);
        }
        Ok(canonical)
    }

    /// The write decision on what the filesystem reported: the resolved
    /// form of the nearest existing ancestor of `target` and the resolved
    /// roots. The checks run in order: read-only mode, denied roots and
    /// allowed roots on the ancestor, then extension and hidden file on
    /// `target` as written.
    pub fn decide_write(
        &self,
        target: &str,
        ancestor: &str,
        denied: &Vec<Option<String>>,
        allowed: &Vec<Option<String>>,
    ) -> (r: Result<String>)
        ensures
            r is Ok <==> self.write_permitted(
                target@,
                ancestor@,
                roots_view(denied@),
                roots_view(allowed@),
            ),
            r matches Ok(p) ==> p@ == target@,
            r matches Err(e) ==> e is PermissionDenied,
            self.read_only ==> (r matches Err(e) && is_read_only_refusal(e)),
    {
        if self.read_only {
            return Err(read_only_error());
        }
        if let Err(e) = self.check_denied_paths(ancestor, denied) {
            return Err(e);
        }
        if let Err(e) = self.check_allowed_paths(ancestor, allowed) {
            return Err(e);
        }
        if let Err(e) = self.check_extension(target) {
            return Err(e);
        }
        if let Err(e) = self.check_hidden_files(target) {
            return Err(e);
        }
        Ok(String::from_str(target))
    }
}

/// The refusal of a write in read-only mode: `PermissionDenied`, saying
/// that writes are disabled in read-only mode.
pub open spec fn is_read_only_refusal(e: FileJackError) -> bool {
    e is PermissionDenied && e->PermissionDenied_0@ == "Write operations are disabled in read-only mode"@
}

/// A list of resolved roots, one per configured root: each is `None` or a
/// resolved path.
pub open spec fn resolved_roots(v: Seq<Option<Seq<char>>>, n: nat) -> bool {
    &&& v.len() == n
    &&& forall|i: int| 0 <= i < v.len() ==> (#[trigger] v[i] matches Some(r) ==> is_resolved(r))
}

/// The error for a path that could not be resolved: `FileNotFound` with
/// the path when some component is missing, `Io` with the description for
/// any other failure.
pub fn resolution_error(path: &str, failure: ResolveFailure) -> (r: FileJackError)
    ensures
        failure is NotFound ==> r is FileNotFound && r->FileNotFound_0@ == path@,
        failure matches ResolveFailure::Failed(msg) ==> r is Io && r->Io_0@ == msg@,
{
    match failure {
        ResolveFailure::NotFound => FileJackError::FileNotFound(String::from_str(path)),
        ResolveFailure::Failed(msg) => FileJackError::Io(msg),
    }
}

/// Resolves `path`; a failure is reported as `resolution_error` says.
fn canonicalize_path(path: &str) -> (r: Result<String>)
    ensures
        r matches Ok(c) ==> is_resolved(c@),
        r matches Err(e) ==> (e is FileNotFound && e->FileNotFound_0@ == path@) || e is Io,
{
    match canonicalize(path) {
        Ok(c) => Ok(c),
        Err(failure) => Err(resolution_error(path, failure)),
    }
}

/// Resolves each root; a root that does not resolve becomes `None`.
fn resolve_roots(roots: &Vec<String>) -> (r: Vec<Option<String>>)
    ensures
        resolved_roots(roots_view(r@), roots.len() as nat),
{
    let mut out: Vec<Option<String>> = Vec::new();
    let mut i: usize = 0;
    while i < roots.len()
        invariant
            i <= roots.len(),
            resolved_roots(roots_view(out@), i as nat),
        decreases roots.len() - i,
    {
        let item = match canonicalize(roots[i].as_str()) {
            Ok(c) => Some(c),
            Err(_) => None,
        };
        let ghost before = out@;
        out.push(item);
        assert(roots_view(out@) =~= roots_view(before).push(opt_text(item)));
        i = i + 1;
    }
    out
}

/// The nearest of `path` and its ancestors that exists, tried from `path`
/// upward; `InvalidPath` when none does.
pub(crate) fn existing_ancestor(path: &str) -> (r: Result<String>)
    ensures
        r matches Ok(a) ==> is_ancestor_or_self(a@, path@),
        r matches Err(e) ==> e is InvalidPath,
{
    if path_exists(path) {
        return Ok(String::from_str(path));
    }
    let cs = components_of(path);
    let absolute = is_absolute_path(path);
    let mut k: usize = cs.len();
    while k > 0
        invariant
            k <= cs.len(),
            texts(cs@) == components(path@),
            absolute == is_absolute(path@),
        decreases k,
    {
        k = k - 1;
        let candidate = join_components(absolute, &cs, k);
        if path_exists(candidate.as_str()) {
            assert(texts(cs@).len() == cs@.len());
            assert(candidate@ == join(is_absolute(path@), components(path@).take(k as int)));
            return Ok(candidate);
        }
    }
    Err(FileJackError::InvalidPath(String::from_str("Cannot find existing ancestor directory")))
}

impl AccessPolicy {
    /// Validates `path` for reading and returns its resolved form, which is
    /// what the caller opens. The path and the configured roots are
    /// resolved on the filesystem at the time of the call; the result is
    /// the read decision on what was found. A path that does not exist is
    /// reported as `FileNotFound`.
    pub fn validate_read(&self, path: &str) -> (r: Result<String>)
        ensures
            self.read_validation(path@, r),
    {
        let canonical = match canonicalize_path(path) {
            Ok(c) => c,
            Err(e) => return Err(e),
        };
        let denied = resolve_roots(&self.denied_paths);
        let allowed = resolve_roots(&self.allowed_paths);
        let link = if !self.allow_symlinks && !is_same_path(path, canonical.as_str()) {
            is_link(path)
        } else {
            false
        };
        self.decide_read(path, canonical, &denied, &allowed, link)
    }

    /// Validates `path` for writing and returns it unchanged. In read-only
    /// mode this fails at once. Otherwise the nearest existing ancestor of
    /// `path` is found and resolved, and the write decision is made on it
    /// and on `path` as written.
    pub fn validate_write(&self, path: &str) -> (r: Result<String>)
        ensures
            self.read_only ==> (r matches Err(e) && is_read_only_refusal(e)),
            r matches Ok(p) ==> p@ == path@ && exists|
                c: Seq<char>,
                d: Seq<Option<Seq<char>>>,
                a: Seq<Option<Seq<char>>>,
            |
                #![trigger self.write_permitted(path@, c, d, a)]
                is_resolved(c) && resolved_roots(d, self.denied_paths.len() as nat)
                    && resolved_roots(a, self.allowed_paths.len() as nat) && self.write_permitted(
                    path@,
                    c,
                    d,
                    a,
                ),
            r matches Err(e) ==> e is InvalidPath || e is FileNotFound || e is Io
                || e is PermissionDenied,
    {
        if self.read_only {
            return Err(read_only_error());
        }
        let ancestor = match existing_ancestor(path) {
            Ok(a) => a,
            Err(e) => return Err(e),
        };
        let canonical = match canonicalize_path(ancestor.as_str()) {
            Ok(c) => c,
            Err(e) => return Err(e),
        };
        let denied = resolve_roots(&self.denied_paths);
        let allowed = resolve_roots(&self.allowed_paths);
        self.decide_write(path, canonical.as_str(), &denied, &allowed)
    }
}

fn read_only_error() -> (r: FileJackError)
    ensures
        is_read_only_refusal(r),
{
    FileJackError::PermissionDenied(
        String::from_str("Write operations are disabled in read-only mode"),
    )
}

/// Denied roots take precedence: when the resolved path lies under a
/// resolved denied root, a read is refused and so is a write whose nearest
/// existing ancestor resolved there, whatever the allowed roots are.
pub proof fn lemma_denied_root_takes_precedence(
    policy: AccessPolicy,
    original: Seq<char>,
    canonical: Seq<char>,
    denied: Seq<Option<Seq<char>>>,
    allowed: Seq<Option<Seq<char>>>,
    link: bool,
    i: int,
)
    requires
        0 <= i < denied.len(),
        denied[i] matches Some(root) && is_under(canonical, root),
    ensures
        !policy.read_permitted(original, canonical, denied, allowed, link),
        !policy.write_permitted(original, canonical, denied, allowed),
{
    assert(under_some(canonical, denied));
}

/// Containment is judged on resolved paths only: when allowed roots are
/// configured and the resolved path lies under none of the resolved ones,
/// a read is refused and so is a write, whatever text was given, `..`
/// components included.
pub proof fn lemma_outside_allowed_roots_refused(
    policy: AccessPolicy,
    original: Seq<char>,
    canonical: Seq<char>,
    denied: Seq<Option<Seq<char>>>,
    allowed: Seq<Option<Seq<char>>>,
    link: bool,
)
    requires
        policy.allowed_paths.len() > 0,
        forall|i: int| 0 <= i < allowed.len() ==> (#[trigger] allowed[i] matches Some(root) ==> !is_under(canonical, root)),
    ensures
        !policy.read_permitted(original, canonical, denied, allowed, link),
        !policy.write_permitted(original, canonical, denied, allowed),
{
}

/// Read-only mode refuses every write, whatever the path and whatever the
/// filesystem reported.
pub proof fn lemma_read_only_refuses_writes(
    policy: AccessPolicy,
    target: Seq<char>,
    ancestor: Seq<char>,
    denied: Seq<Option<Seq<char>>>,
    allowed: Seq<Option<Seq<char>>>,
)
    requires
        policy.read_only,
    ensures
        !policy.write_permitted(target, ancestor, denied, allowed),
{
}

/// Validation keeps no state: two reads of the same path under the same
/// policy, against a filesystem that reports the same things, reach the
/// same decision.
pub proof fn lemma_read_decision_repeatable(
    policy: AccessPolicy,
    original: Seq<char>,
    canonical1: Seq<char>,
    canonical2: Seq<char>,
    denied1: Seq<Option<Seq<char>>>,
    denied2: Seq<Option<Seq<char>>>,
    allowed1: Seq<Option<Seq<char>>>,
    allowed2: Seq<Option<Seq<char>>>,
    link1: bool,
    link2: bool,
)
    requires
        canonical1 == canonical2,
        denied1 == denied2,
        allowed1 == allowed2,
        link1 == link2,
    ensures
        policy.read_permitted(original, canonical1, denied1, allowed1, link1)
            == policy.read_permitted(original, canonical2, denied2, allowed2, link2),
{
}

} // verus!
