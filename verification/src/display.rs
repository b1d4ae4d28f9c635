//! Path display formatting: render a path as a human-readable string for
//! the UI, degrading to a fixed placeholder instead of failing.

use vstd::prelude::*;

verus! {

/// The placeholder shown when the installation root cannot be resolved to
/// an absolute path.
pub open spec fn fallback_message() -> Seq<char> {
    "couldn't determine path"@
}

/// What the display formatter returns: the resolved absolute form of the
/// path when resolution yielded a non-empty string, the fallback message
/// otherwise. An empty resolved value counts as a failed resolution: no
/// absolute path is empty.
pub open spec fn display_spec(resolved: Option<Seq<char>>, fallback: Seq<char>) -> Seq<char> {
    match resolved {
        Some(s) => if s.len() > 0 {
            s
        } else {
            fallback
        },
        None => fallback,
    }
}

/// Selects the display form of a path. `resolved` is the outcome of the
/// host's attempt to resolve the path to an absolute form: `Some` with the
/// absolute path on success, `None` on any failure (missing path,
/// permission denied, platform error). A failure — or an empty resolved
/// value, which no absolute path can be — degrades to `fallback` verbatim;
/// this function itself is total and never fails.
pub fn display_string(resolved: Option<String>, fallback: &str) -> (r: String)
    ensures
        r@ == display_spec(resolved.deep_view(), fallback@),
{
    match resolved {
        Some(s) => if s.as_str().is_empty() {
            fallback.to_owned()
        } else {
            s
        },
        None => fallback.to_owned(),
    }
}

/// A displayed path is never empty, whatever the host hands in: it is
/// either the (non-empty) resolved absolute path or exactly the supplied
/// fallback message.
pub proof fn lemma_display_nonempty(resolved: Option<Seq<char>>, fallback: Seq<char>)
    requires
        fallback.len() > 0,
    ensures
        display_spec(resolved, fallback).len() > 0,
        resolved is Some && resolved.unwrap().len() > 0 ==> display_spec(resolved, fallback)
            == resolved.unwrap(),
        !(resolved is Some && resolved.unwrap().len() > 0) ==> display_spec(resolved, fallback)
            == fallback,
{
}

} // verus!
