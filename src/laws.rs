//! Properties of a run, stated over the models of `aggregate` and `filter`
//! and proved.

use vstd::prelude::*;
use crate::aggregate::{
    body_part, closing, entry_style, file_block, header, opening, rendered, report_of, selected,
    Report, WalkedFile,
};
use crate::filter::{eligible, in_node_modules};
use crate::style::CommentStyle;
use crate::text::{has_infix, trimmed, trim_end, trim_start};

verus! {

/// With an empty allowlist, the gathered text is one block for each walked
/// regular file outside `node_modules`, each exactly once and in walk order,
/// and nothing more.
pub proof fn lemma_every_file_once(allow: Seq<Seq<char>>, files: Seq<WalkedFile>)
    requires
        allow.len() == 0,
    ensures
        rendered(allow, files) == files.filter(
            |f: WalkedFile| f.entry.is_file && !in_node_modules(f.entry.path@),
        ).map_values(|f: WalkedFile| file_block(f)).flatten(),
{
    let p = |f: WalkedFile| eligible(allow, f.entry);
    let q = |f: WalkedFile| f.entry.is_file && !in_node_modules(f.entry.path@);
    assert(p =~= q);
}

/// With a non-empty allowlist, a walked regular file outside `node_modules`
/// is taken exactly when it has an extension and the list holds that
/// extension as written.
pub proof fn lemma_allowlist_decides(allow: Seq<Seq<char>>, files: Seq<WalkedFile>, f: WalkedFile)
    requires
        allow.len() > 0,
        files.contains(f),
        f.entry.is_file,
        !in_node_modules(f.entry.path@),
    ensures
        selected(allow, files).contains(f) <==> (f.entry.extension matches Some(x) && allow.contains(
            x@,
        )),
{
    broadcast use vstd::seq_lib::group_filter_ensures, Seq::lemma_filter_contains_rev;

    let p = |w: WalkedFile| eligible(allow, w.entry);
    if selected(allow, files).contains(f) {
        let i = choose|i: int| 0 <= i < files.filter(p).len() && files.filter(p)[i] == f;
        assert(p(files.filter(p)[i]));
    }
    if f.entry.extension matches Some(x) && allow.contains(x@) {
        let i = choose|i: int| 0 <= i < files.len() && files[i] == f;
        assert(p(files[i]));
    }
}

/// Two runs with the same allowlist over the same walk give the same text
/// and the same summary.
pub proof fn lemma_rerun_identical(
    allow1: Seq<Seq<char>>,
    allow2: Seq<Seq<char>>,
    files1: Seq<WalkedFile>,
    files2: Seq<WalkedFile>,
)
    requires
        allow1 == allow2,
        files1 == files2,
    ensures
        trimmed(rendered(allow1, files1)) == trimmed(rendered(allow2, files2)),
        report_of(rendered(allow1, files1)) == report_of(rendered(allow2, files2)),
{
}

/// Every block starts with its header, which names the file and its full
/// path, whatever reading the file gave.
pub proof fn lemma_block_starts_with_header(f: WalkedFile)
    ensures
        ({
            let h = header(entry_style(f.entry), f.entry.file_name@, f.entry.path@);
            &&& file_block(f).len() >= h.len()
            &&& file_block(f).subrange(0, h.len() as int) == h
            &&& has_infix(h, f.entry.file_name@)
            &&& has_infix(h, f.entry.path@)
        }),
{
    let st = entry_style(f.entry);
    let name = f.entry.file_name@;
    let path = f.entry.path@;
    let h = header(st, name, path);
    let rest = body_part(crate::filter::opt_view(f.body)) + closing(st);
    assert(file_block(f) =~= h + rest);
    assert(file_block(f).subrange(0, h.len() as int) =~= h);
    let i: int = ("\n"@.len() + opening(st).len() + " File: "@.len()) as int;
    assert(h.subrange(i, i + name.len()) =~= name);
    let j: int = i + name.len() + "\n"@.len() + opening(st).len() + " Path: "@.len();
    assert(h.subrange(j, j + path.len()) =~= path);
}

/// html blocks end with the line `-->` and css blocks with `*/`; blocks of
/// every other style are the header and the body alone, with no closing line.
pub proof fn lemma_block_footer(f: WalkedFile)
    ensures
        entry_style(f.entry) == CommentStyle::Html ==> file_block(f).len() >= 4 && file_block(
            f,
        ).subrange(file_block(f).len() - 4, file_block(f).len() as int) == "-->\n"@,
        entry_style(f.entry) == CommentStyle::Css ==> file_block(f).len() >= 3 && file_block(
            f,
        ).subrange(file_block(f).len() - 3, file_block(f).len() as int) == "*/\n"@,
        entry_style(f.entry) == CommentStyle::Slash || entry_style(f.entry) == CommentStyle::Hash
            ==> file_block(f) == header(entry_style(f.entry), f.entry.file_name@, f.entry.path@)
            + body_part(crate::filter::opt_view(f.body)),
{
    reveal_strlit("-->\n");
    reveal_strlit("*/\n");
    let st = entry_style(f.entry);
    let front = header(st, f.entry.file_name@, f.entry.path@) + body_part(
        crate::filter::opt_view(f.body),
    );
    let b = file_block(f);
    if st == CommentStyle::Html {
        assert(b.subrange(b.len() - 4, b.len() as int) =~= "-->\n"@);
    }
    if st == CommentStyle::Css {
        assert(b.subrange(b.len() - 3, b.len() as int) =~= "*/\n"@);
    }
    if st == CommentStyle::Slash || st == CommentStyle::Hash {
        assert(b =~= front);
    }
}

/// A run that takes no file gathers nothing: its text is empty and it
/// reports that no file was processed. A run that takes a file never reports
/// so.
pub proof fn lemma_nothing_taken(allow: Seq<Seq<char>>, files: Seq<WalkedFile>)
    ensures
        selected(allow, files).len() == 0 <==> report_of(rendered(allow, files)) == Report::NoFiles,
        selected(allow, files).len() == 0 ==> trimmed(rendered(allow, files)) == Seq::<char>::empty(),
{
    broadcast use Seq::lemma_flatten_push;

    let s = selected(allow, files);
    let m = s.map_values(|f: WalkedFile| file_block(f));
    if s.len() == 0 {
        assert(m =~= Seq::<Seq<char>>::empty());
        assert(rendered(allow, files) =~= Seq::<char>::empty());
        assert(trim_start(Seq::<char>::empty()) == Seq::<char>::empty());
        assert(trim_end(Seq::<char>::empty()) == Seq::<char>::empty());
    } else {
        reveal_strlit("\n");
        let f = s.last();
        assert(m =~= m.drop_last().push(file_block(f)));
        assert(file_block(f).len() >= 1);
        assert(rendered(allow, files).len() >= 1);
    }
}

} // verus!
