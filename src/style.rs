//! Comment markers that frame each file, chosen from its extension.

use vstd::prelude::*;
use crate::text::same_text;

verus! {

/// The marker pair that frames a file's block.
#[derive(Clone, Copy, Debug, PartialEq, Eq, Structural)]
pub enum CommentStyle {
    /// `//`, no closing marker.
    Slash,
    /// `#`, no closing marker.
    Hash,
    /// `<!--`, closed by `-->`.
    Html,
    /// `/*`, closed by `*/`.
    Css,
}

/// The style of a file with the given extension, compared case-sensitively.
pub open spec fn style_of(ext: Option<Seq<char>>) -> CommentStyle {
    match ext {
        Some(e) => if e == "js"@ || e == "ts"@ || e == "java"@ || e == "rs"@ {
            CommentStyle::Slash
        } else if e == "py"@ || e == "rb"@ || e == "sh"@ || e == "yml"@ || e == "yaml"@ {
            CommentStyle::Hash
        } else if e == "html"@ {
            CommentStyle::Html
        } else if e == "css"@ {
            CommentStyle::Css
        } else {
            CommentStyle::Slash
        },
        None => CommentStyle::Slash,
    }
}

/// Picks the comment style for a file from its extension (`None` when the
/// file has none). Unknown extensions fall back to `//`.
pub fn determine_comment_style(ext: Option<&str>) -> (r: CommentStyle)
    ensures
        r == style_of(match ext {
            Some(e) => Some(e@),
            None => None,
        }),
{
    match ext {
        Some(e) => {
            if same_text(e, "js") || same_text(e, "ts") || same_text(e, "java") || same_text(e, "rs") {
                CommentStyle::Slash
            } else if same_text(e, "py") || same_text(e, "rb") || same_text(e, "sh") || same_text(e, "yml")
                || same_text(e, "yaml") {
                CommentStyle::Hash
            } else if same_text(e, "html") {
                CommentStyle::Html
            } else if same_text(e, "css") {
                CommentStyle::Css
            } else {
                CommentStyle::Slash
            }
        },
        None => CommentStyle::Slash,
    }
}

} // verus!
