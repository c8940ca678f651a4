//! Framing each taken file and joining the frames into the run's text.

use vstd::prelude::*;
use vstd::string::StrSliceExecFns;
use crate::filter::{eligible, opt_view, RunConfig, WalkEntry};
use crate::style::{determine_comment_style, style_of, CommentStyle};
use crate::text::{trim_text, trimmed};

verus! {

/// A walked entry together with what reading it gave: its text, or `None`
/// where it was not read or could not be read as text.
#[derive(Clone, Debug)]
pub struct WalkedFile {
    pub entry: WalkEntry,
    pub body: Option<String>,
}

/// The summary that a finished run reports.
#[derive(Clone, Copy, Debug, PartialEq, Eq, Structural)]
pub enum Report {
    /// No file was taken.
    NoFiles,
    /// The number of characters gathered, before trimming.
    Processed(usize),
}

/// The finished text of a run and its summary.
#[derive(Clone, Debug)]
pub struct Aggregate {
    pub text: String,
    pub report: Report,
}

/// Why a run fails as a whole.
#[derive(Clone, Debug)]
pub enum AggregateError {
    /// The root path is missing or is not a directory.
    NotADirectory(String),
}

/// The marker that opens each header line.
pub open spec fn opening(st: CommentStyle) -> Seq<char> {
    match st {
        CommentStyle::Slash => "//"@,
        CommentStyle::Hash => "#"@,
        CommentStyle::Html => "<!--"@,
        CommentStyle::Css => "/*"@,
    }
}

/// The closing line that ends a block; empty for line-comment styles.
pub open spec fn closing(st: CommentStyle) -> Seq<char> {
    match st {
        CommentStyle::Html => "-->\n"@,
        CommentStyle::Css => "*/\n"@,
        _ => Seq::empty(),
    }
}

/// `\n<marker> File: <name>\n<marker> Path: <path>\n`
pub open spec fn header(st: CommentStyle, name: Seq<char>, path: Seq<char>) -> Seq<char> {
    "\n"@ + opening(st) + " File: "@ + name + "\n"@ + opening(st) + " Path: "@ + path + "\n"@
}

/// The text that follows the header: the body and a newline, or nothing
/// where the file could not be read.
pub open spec fn body_part(body: Option<Seq<char>>) -> Seq<char> {
    match body {
        Some(b) => b + "\n"@,
        None => Seq::empty(),
    }
}

/// The style of a walked entry.
pub open spec fn entry_style(e: WalkEntry) -> CommentStyle {
    style_of(opt_view(e.extension))
}

/// The block that one taken file contributes.
pub open spec fn file_block(f: WalkedFile) -> Seq<char> {
    header(entry_style(f.entry), f.entry.file_name@, f.entry.path@) + body_part(opt_view(f.body))
        + closing(entry_style(f.entry))
}

/// The walked files that are taken, in walk order.
pub open spec fn selected(allow: Seq<Seq<char>>, files: Seq<WalkedFile>) -> Seq<WalkedFile> {
    files.filter(|f: WalkedFile| eligible(allow, f.entry))
}

/// The blocks of the taken files, joined in walk order, before trimming.
pub open spec fn rendered(allow: Seq<Seq<char>>, files: Seq<WalkedFile>) -> Seq<char> {
    selected(allow, files).map_values(|f: WalkedFile| file_block(f)).flatten()
}

/// The summary of a gathered text.
pub open spec fn report_of(gathered: Seq<char>) -> Report {
    if gathered.len() == 0 {
        Report::NoFiles
    } else {
        Report::Processed(gathered.len() as usize)
    }
}

fn opening_text(st: CommentStyle) -> (r: &'static str)
    ensures
        r@ == opening(st),
{
    match st {
        CommentStyle::Slash => "//",
        CommentStyle::Hash => "#",
        CommentStyle::Html => "<!--",
        CommentStyle::Css => "/*",
    }
}

fn closing_text(st: CommentStyle) -> (r: &'static str)
    ensures
        r@ == closing(st),
{
    match st {
        CommentStyle::Html => "-->\n",
        CommentStyle::Css => "*/\n",
        _ => {
            proof {
                reveal_strlit("");
            }
            ""
        },
    }
}

/// Appends to `buf` the block of `file` if the run takes it, and nothing
/// otherwise.
pub fn add_file(buf: &mut String, config: &RunConfig, file: &WalkedFile)
    ensures
        final(buf)@ == old(buf)@ + if eligible(config.allowlist(), file.entry) {
            file_block(*file)
        } else {
            Seq::empty()
        },
{
    if !config.accepts(&file.entry) {
        assert(buf@ =~= buf@ + Seq::<char>::empty());
        return;
    }
    let e = &file.entry;
    let st = determine_comment_style(
        match &e.extension {
            Some(x) => Some(x.as_str()),
            None => None,
        },
    );
    let ghost start = buf@;
    let m = opening_text(st);
    buf.append("\n");
    buf.append(m);
    buf.append(" File: ");
    buf.append(e.file_name.as_str());
    buf.append("\n");
    buf.append(m);
    buf.append(" Path: ");
    buf.append(e.path.as_str());
    buf.append("\n");
    assert(buf@ =~= start + header(st, e.file_name@, e.path@));
    let ghost after_header = buf@;
    match &file.body {
        Some(b) => {
            buf.append(b.as_str());
            buf.append("\n");
        },
        None => {},
    }
    assert(buf@ =~= after_header + body_part(opt_view(file.body)));
    buf.append(closing_text(st));
    assert(buf@ =~= start + file_block(*file));
}

/// Gathers the taken files of one walk into the run's text.
///
/// `root_is_dir` says whether `config.root` names an existing directory;
/// `files` is what the walk yielded, in order, each taken file with what
/// reading it gave. A root that is no directory fails the run before
/// anything is gathered; otherwise the result is the blocks of the taken
/// files, joined in walk order and trimmed of white space at both ends.
pub fn aggregate_files(config: &RunConfig, root_is_dir: bool, files: &Vec<WalkedFile>) -> (r: Result<
    Aggregate,
    AggregateError,
>)
    ensures
        !root_is_dir ==> (r matches Err(AggregateError::NotADirectory(p)) && p == config.root),
        root_is_dir ==> (r matches Ok(a) && a.text@ == trimmed(rendered(config.allowlist(), files@))
            && a.report == report_of(rendered(config.allowlist(), files@))),
{
    if !root_is_dir {
        return Err(AggregateError::NotADirectory(config.root.clone()));
    }
    let mut buf = String::new();
    let mut i: usize = 0;
    assert(files@.subrange(0, 0) =~= Seq::<WalkedFile>::empty());
    assert(rendered(config.allowlist(), Seq::<WalkedFile>::empty()) =~= Seq::<char>::empty());
    while i < files.len()
        invariant
            i <= files.len(),
            buf@ == rendered(config.allowlist(), files@.subrange(0, i as int)),
        decreases files.len() - i,
    {
        let ghost allow = config.allowlist();
        let ghost prefix = files@.subrange(0, i as int);
        let ghost f = files@[i as int];
        add_file(&mut buf, config, &files[i]);
        proof {
            broadcast use Seq::lemma_filter_push, Seq::lemma_flatten_push;

            assert(files@.subrange(0, i + 1) =~= prefix.push(f));
            let g = |w: WalkedFile| file_block(w);
            let s = selected(allow, prefix);
            assert(s.push(f).map_values(g) =~= s.map_values(g).push(file_block(f)));
            if eligible(allow, f.entry) {
                assert(selected(allow, prefix.push(f)) == s.push(f));
            } else {
                assert(selected(allow, prefix.push(f)) == s);
            }
        }
        i = i + 1;
    }
    assert(files@.subrange(0, files@.len() as int) =~= files@);
    let n = buf.as_str().unicode_len();
    let report = if n == 0 {
        Report::NoFiles
    } else {
        Report::Processed(n)
    };
    Ok(Aggregate { text: trim_text(buf.as_str()), report })
}

} // verus!
