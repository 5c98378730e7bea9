//! Which media backend drives the graph.

use vstd::prelude::*;
use crate::text::str_eq;

verus! {

/// The media backend implementation in use.
#[derive(Clone, Copy, Debug, PartialEq, Eq, Structural)]
pub enum BackendKind {
    Migration,
    GstPop,
}

/// The persisted name of a backend kind.
pub open spec fn kind_name(k: BackendKind) -> Seq<char> {
    match k {
        BackendKind::Migration => "migration"@,
        BackendKind::GstPop => "gst-pop"@,
    }
}

/// The backend kind a name denotes; `gstpop` is accepted as an alias of
/// `gst-pop`.
pub open spec fn kind_from_name(s: Seq<char>) -> Option<BackendKind> {
    if s == "migration"@ {
        Some(BackendKind::Migration)
    } else if s == "gst-pop"@ || s == "gstpop"@ {
        Some(BackendKind::GstPop)
    } else {
        None
    }
}

impl BackendKind {
    /// The default kind, [`BackendKind::Migration`].
    pub fn default_kind() -> (k: BackendKind)
        ensures
            k == BackendKind::Migration,
    {
        BackendKind::Migration
    }

    /// The persisted name of this kind.
    pub fn as_str(self) -> (s: &'static str)
        ensures
            s@ == kind_name(self),
    {
        match self {
            BackendKind::Migration => "migration",
            BackendKind::GstPop => "gst-pop",
        }
    }

    /// The kind a name denotes, if any.
    pub fn parse(value: &str) -> (r: Option<BackendKind>)
        ensures
            r == kind_from_name(value@),
    {
        if str_eq(value, "migration") {
            Some(BackendKind::Migration)
        } else if str_eq(value, "gst-pop") || str_eq(value, "gstpop") {
            Some(BackendKind::GstPop)
        } else {
            None
        }
    }
}

impl Default for BackendKind {
    fn default() -> (k: BackendKind)
        ensures
            k == BackendKind::Migration,
    {
        BackendKind::Migration
    }
}

/// Reading back the name of a kind gives the kind.
pub proof fn lemma_parse_as_str(k: BackendKind)
    ensures
        kind_from_name(kind_name(k)) == Some(k),
{
    reveal_strlit("migration");
    reveal_strlit("gst-pop");
    reveal_strlit("gstpop");
    assert("migration"@.len() == 9 && "gst-pop"@.len() == 7 && "gstpop"@.len() == 6);
}

/// Distinct kinds have distinct names.
pub proof fn lemma_as_str_injective(a: BackendKind, b: BackendKind)
    ensures
        kind_name(a) == kind_name(b) ==> a == b,
{
    lemma_parse_as_str(a);
    lemma_parse_as_str(b);
}

} // verus!
