//! The run's configuration and the decision, for each walked entry, whether
//! it is taken.
//!
//! Hidden files and ignore-file rules are honoured by the walk itself, which
//! reads `include_hidden` and `use_gitignore`; what the walk yields is then
//! judged here.

use vstd::prelude::*;
use crate::text::{contains_text, has_infix, same_text, split_on, split_text, views};

verus! {

/// One entry that the walk yielded, as plain values.
#[derive(Clone, Debug)]
pub struct WalkEntry {
    /// The full path, as the platform displays it.
    pub path: String,
    /// The last component of the path.
    pub file_name: String,
    /// The text after the last `.` of the file name, if there is one.
    pub extension: Option<String>,
    /// Whether the entry is a regular file.
    pub is_file: bool,
}

/// What one run is asked to do.
#[derive(Clone, Debug)]
pub struct RunConfig {
    /// The directory to walk.
    pub root: String,
    /// Whether the walk yields hidden entries.
    pub include_hidden: bool,
    /// Whether the walk honours ignore files.
    pub use_gitignore: bool,
    /// The extensions that are taken; empty takes every extension.
    pub allowed_extensions: Vec<String>,
}

/// The characters of an optional string.
pub open spec fn opt_view(o: Option<String>) -> Option<Seq<char>> {
    match o {
        Some(s) => Some(s@),
        None => None,
    }
}

/// Whether a path lies under a `node_modules` directory, or merely names it.
pub open spec fn in_node_modules(path: Seq<char>) -> bool {
    has_infix(path, "node_modules"@)
}

/// Whether the extension passes the allowlist: any extension, or none, when
/// the list is empty; otherwise only an extension that the list holds as
/// given, with no change of case.
pub open spec fn extension_allowed(allow: Seq<Seq<char>>, ext: Option<Seq<char>>) -> bool {
    allow.len() == 0 || match ext {
        Some(x) => allow.contains(x),
        None => false,
    }
}

/// Whether a walked entry is taken into the output.
pub open spec fn eligible(allow: Seq<Seq<char>>, e: WalkEntry) -> bool {
    &&& e.is_file
    &&& !in_node_modules(e.path@)
    &&& extension_allowed(allow, opt_view(e.extension))
}

/// The allowlist that a comma-separated list of extensions gives.
pub open spec fn allowlist_of(types: Option<Seq<char>>) -> Seq<Seq<char>> {
    match types {
        Some(t) => split_on(t, ','),
        None => Seq::empty(),
    }
}

/// Splits a comma-separated list of extensions (`"rs,js,py"`). No list gives
/// an empty allowlist; the pieces are kept as written.
pub fn parse_file_types(types: Option<&str>) -> (r: Vec<String>)
    ensures
        views(r@) == allowlist_of(match types {
            Some(t) => Some(t@),
            None => None,
        }),
{
    match types {
        Some(t) => split_text(t, ','),
        None => {
            let r: Vec<String> = Vec::new();
            assert(views(r@) =~= Seq::<Seq<char>>::empty());
            r
        },
    }
}

/// Whether `x` is one of the strings of `list`.
fn list_holds(list: &Vec<String>, x: &str) -> (r: bool)
    ensures
        r == views(list@).contains(x@),
{
    let mut i: usize = 0;
    while i < list.len()
        invariant
            i <= list.len(),
            forall|k: int| 0 <= k < i ==> list@[k]@ != x@,
        decreases list.len() - i,
    {
        if same_text(list[i].as_str(), x) {
            assert(views(list@)[i as int] == x@);
            return true;
        }
        i = i + 1;
    }
    proof {
        if views(list@).contains(x@) {
            let k = choose|k: int| 0 <= k < views(list@).len() && views(list@)[k] == x@;
            assert(list@[k]@ == x@);
        }
    }
    false
}

impl RunConfig {
    /// Gathers a run's settings; `file_types` is the comma-separated
    /// allowlist, if one was given.
    pub fn new(root: String, include_hidden: bool, use_gitignore: bool, file_types: Option<&str>) -> (r:
        RunConfig)
        ensures
            r.root == root,
            r.include_hidden == include_hidden,
            r.use_gitignore == use_gitignore,
            views(r.allowed_extensions@) == allowlist_of(match file_types {
                Some(t) => Some(t@),
                None => None,
            }),
    {
        RunConfig {
            root,
            include_hidden,
            use_gitignore,
            allowed_extensions: parse_file_types(file_types),
        }
    }

    /// The allowlist as character sequences.
    pub open spec fn allowlist(&self) -> Seq<Seq<char>> {
        views(self.allowed_extensions@)
    }

    /// Whether the walked entry is taken into the output.
    pub fn accepts(&self, entry: &WalkEntry) -> (r: bool)
        ensures
            r == eligible(self.allowlist(), *entry),
    {
        if !entry.is_file || contains_text(entry.path.as_str(), "node_modules") {
            return false;
        }
        if self.allowed_extensions.len() == 0 {
            return true;
        }
        match &entry.extension {
            Some(x) => list_holds(&self.allowed_extensions, x.as_str()),
            None => false,
        }
    }
}

} // verus!
