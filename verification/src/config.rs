//! The config resolver: builds the immutable `InstallerConfig` record from
//! an installation root and a retry flag.
//!
//! Every derived path is the root joined with a fixed relative segment, in
//! Windows form: a `\` separator is inserted only when the root is
//! non-empty and does not already end in a separator, exactly as the host's
//! path type joins. The result matches the on-disk layout the rest of the
//! installer relies on:
//!
//! ```text
//! <root>/
//!   INSTALLER_LOGS/
//!   python/python.exe
//!   server-info.json
//!   server-info-old.json
//! ```

use vstd::prelude::*;
use vstd::string::{StrSliceExecFns, StringExecFns};
use crate::display::{display_spec, display_string, fallback_message};

verus! {

/// The fixed subdirectory that receives installer logs.
pub open spec fn logs_segment() -> Seq<char> {
    "INSTALLER_LOGS"@
}

/// The fixed directory holding the embedded interpreter.
pub open spec fn python_dir_segment() -> Seq<char> {
    "python"@
}

/// The embedded interpreter executable inside `python_dir_segment`.
pub open spec fn python_exe_segment() -> Seq<char> {
    "python.exe"@
}

/// The fixed file holding the current run's server/install metadata.
pub open spec fn server_info_segment() -> Seq<char> {
    "server-info.json"@
}

/// The fixed file holding the metadata of the prior (pre-retry) attempt.
pub open spec fn server_info_old_segment() -> Seq<char> {
    "server-info-old.json"@
}

/// True of the characters Windows accepts as path separators.
pub open spec fn is_separator(c: char) -> bool {
    c == '\\' || c == '/'
}

/// Joining a path with a relative segment, as the host's path type does:
/// an empty base leaves the segment bare (a path relative to the current
/// directory), a base that already ends in a separator gets none inserted,
/// and otherwise a `\` stands between base and segment.
pub open spec fn join_spec(base: Seq<char>, segment: Seq<char>) -> Seq<char> {
    if base.len() == 0 {
        segment
    } else if is_separator(base.last()) {
        base + segment
    } else {
        base + "\\"@ + segment
    }
}

/// Joins a path with a relative segment, Windows-style.
pub fn join(base: &str, segment: &str) -> (r: String)
    ensures
        r@ == join_spec(base@, segment@),
{
    if base.is_empty() {
        segment.to_owned()
    } else {
        let n = base.unicode_len();
        let last = base.get_char(n - 1);
        let mut r: String = base.to_owned();
        if !(last == '\\' || last == '/') {
            r.append("\\");
        }
        r.append(segment);
        r
    }
}

/// The mathematical content of an `InstallerConfig`: each path field as a
/// sequence of characters, plus the retry flag.
#[verifier::ext_equal]
pub struct ConfigModel {
    pub sub_folder: Seq<char>,
    pub sub_folder_display: Seq<char>,
    pub logs_folder: Seq<char>,
    pub python_path: Seq<char>,
    pub is_retry: bool,
    pub server_info_path: Seq<char>,
    pub server_info_old: Seq<char>,
}

/// The record an installer run is configured by. Immutable once
/// constructed; every later stage only reads it. All paths are relative to
/// the current directory unless the caller supplied an absolute root.
pub struct InstallerConfig {
    pub sub_folder: String,
    pub sub_folder_display: String,
    pub logs_folder: String,
    pub python_path: String,
    pub is_retry: bool,
    pub server_info_path: String,
    pub server_info_old: String,
}

impl View for InstallerConfig {
    type V = ConfigModel;

    open spec fn view(&self) -> ConfigModel {
        ConfigModel {
            sub_folder: self.sub_folder@,
            sub_folder_display: self.sub_folder_display@,
            logs_folder: self.logs_folder@,
            python_path: self.python_path@,
            is_retry: self.is_retry,
            server_info_path: self.server_info_path@,
            server_info_old: self.server_info_old@,
        }
    }
}

/// The record that resolution produces, as a pure function of the root, the
/// retry flag, and the outcome of the host's absolute-path lookup.
pub open spec fn resolve_spec(
    root: Seq<char>,
    is_retry: bool,
    resolved_root: Option<Seq<char>>,
) -> ConfigModel {
    ConfigModel {
        sub_folder: root,
        sub_folder_display: display_spec(resolved_root, fallback_message()),
        logs_folder: join_spec(root, logs_segment()),
        python_path: join_spec(join_spec(root, python_dir_segment()), python_exe_segment()),
        is_retry: is_retry,
        server_info_path: join_spec(root, server_info_segment()),
        server_info_old: join_spec(root, server_info_old_segment()),
    }
}

/// A record is well formed when every derived path is the stored root
/// joined with its fixed segment: none varies independently of the root.
pub open spec fn derived_paths_consistent(m: ConfigModel) -> bool {
    &&& m.logs_folder == join_spec(m.sub_folder, logs_segment())
    &&& m.python_path == join_spec(
        join_spec(m.sub_folder, python_dir_segment()),
        python_exe_segment(),
    )
    &&& m.server_info_path == join_spec(m.sub_folder, server_info_segment())
    &&& m.server_info_old == join_spec(m.sub_folder, server_info_old_segment())
}

impl InstallerConfig {
    /// Builds the configuration record. Total: it accepts every root value,
    /// including an empty or non-existent path, and never fails.
    ///
    /// `resolved_root` is the outcome of the host's attempt to resolve
    /// `root` to an absolute path for display (`None` on any failure); the
    /// failure case degrades to a fixed placeholder. Everything else is
    /// pure path-string composition: no filesystem access, no validation.
    pub fn new(root: &str, is_retry: bool, resolved_root: Option<String>) -> (c: InstallerConfig)
        ensures
            c@ == resolve_spec(root@, is_retry, resolved_root.deep_view()),
            derived_paths_consistent(c@),
            c@.sub_folder_display.len() > 0,
    {
        proof {
            reveal_strlit("couldn't determine path");
        }
        let sub_folder: String = root.to_owned();
        let sub_folder_display = display_string(resolved_root, "couldn't determine path");
        let logs_folder = join(root, "INSTALLER_LOGS");
        let python_dir = join(root, "python");
        let python_path = join(python_dir.as_str(), "python.exe");
        let server_info_path = join(root, "server-info.json");
        let server_info_old = join(root, "server-info-old.json");

        InstallerConfig {
            sub_folder,
            sub_folder_display,
            logs_folder,
            python_path,
            is_retry,
            server_info_path,
            server_info_old,
        }
    }
}

/// The retry flag is stored unchanged: resolution never recomputes it.
pub proof fn lemma_retry_flag_kept(
    root: Seq<char>,
    is_retry: bool,
    resolved_root: Option<Seq<char>>,
)
    ensures
        resolve_spec(root, is_retry, resolved_root).is_retry == is_retry,
{
}

/// Each derived path equals the root joined with its fixed segment — exact
/// equality, for every root and retry flag.
pub proof fn lemma_derived_paths(root: Seq<char>, is_retry: bool, resolved_root: Option<Seq<char>>)
    ensures
        resolve_spec(root, is_retry, resolved_root).logs_folder == join_spec(
            root,
            logs_segment(),
        ),
        resolve_spec(root, is_retry, resolved_root).python_path == join_spec(
            join_spec(root, python_dir_segment()),
            python_exe_segment(),
        ),
        resolve_spec(root, is_retry, resolved_root).server_info_path == join_spec(
            root,
            server_info_segment(),
        ),
        resolve_spec(root, is_retry, resolved_root).server_info_old == join_spec(
            root,
            server_info_old_segment(),
        ),
        derived_paths_consistent(resolve_spec(root, is_retry, resolved_root)),
{
}

/// A joined path stays under its base: the base is a prefix of the result,
/// and the result extends it by at least the segment, so every derived
/// path lies below the installation root.
pub proof fn lemma_join_under_base(base: Seq<char>, segment: Seq<char>)
    ensures
        join_spec(base, segment).len() >= base.len() + segment.len(),
        join_spec(base, segment).subrange(0, base.len() as int) == base,
        segment.len() > 0 ==> join_spec(base, segment).len() > base.len(),
{
    reveal_strlit("\\");
    assert(join_spec(base, segment).subrange(0, base.len() as int) =~= base);
}

/// Resolution is deterministic: two records built from identical inputs
/// agree field for field.
pub proof fn lemma_resolve_deterministic(
    root: Seq<char>,
    is_retry: bool,
    resolved_root: Option<Seq<char>>,
    c1: ConfigModel,
    c2: ConfigModel,
)
    requires
        c1 == resolve_spec(root, is_retry, resolved_root),
        c2 == resolve_spec(root, is_retry, resolved_root),
    ensures
        c1.sub_folder == c2.sub_folder,
        c1.sub_folder_display == c2.sub_folder_display,
        c1.logs_folder == c2.logs_folder,
        c1.python_path == c2.python_path,
        c1.is_retry == c2.is_retry,
        c1.server_info_path == c2.server_info_path,
        c1.server_info_old == c2.server_info_old,
{
}

} // verus!
