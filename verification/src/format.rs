//! Rendering one file into an output fragment.
//!
//! A fragment wraps a file's relative path and full contents in the
//! chosen style's template. The template never alters the contents:
//! the exact character sequence of the file sits between the wrapper
//! pieces.

use vstd::prelude::*;

use crate::config::{ConfigError, OutputFormat, parse_output_format};
use crate::strops::push_str;

verus! {

broadcast use vstd::string::group_string_axioms;

/// The markdown-style fragment: a `### ` heading with the relative
/// path, then the contents between triple-backtick fences.
pub open spec fn markdown_fragment(rel_path: Seq<char>, contents: Seq<char>) -> Seq<char> {
    "### "@ + rel_path + "\n```\n"@ + contents + "\n```\n"@
}

/// The plain-style fragment: the relative path, a newline, the
/// contents, a newline.
pub open spec fn plain_fragment(rel_path: Seq<char>, contents: Seq<char>) -> Seq<char> {
    rel_path + "\n"@ + contents + "\n"@
}

/// The fragment a file renders to under the given style.
pub open spec fn fragment_of(format: OutputFormat, rel_path: Seq<char>, contents: Seq<char>) -> Seq<char> {
    match format {
        OutputFormat::Markdown => markdown_fragment(rel_path, contents),
        OutputFormat::Plain => plain_fragment(rel_path, contents),
    }
}

/// The shape of every markdown fragment: it opens with `### `
/// followed by the exact relative path, and the file's exact character
/// sequence sits between the two triple-backtick fences, unaltered.
pub proof fn lemma_markdown_fragment_shape(rel_path: Seq<char>, contents: Seq<char>)
    ensures
        markdown_fragment(rel_path, contents).len() == rel_path.len() as int + contents.len() as int + 14,
        markdown_fragment(rel_path, contents).subrange(0, 4) == "### "@,
        markdown_fragment(rel_path, contents).subrange(4, 4 + rel_path.len() as int) == rel_path,
        markdown_fragment(rel_path, contents).subrange(
            4 + rel_path.len() as int,
            9 + rel_path.len() as int,
        ) == "\n```\n"@,
        markdown_fragment(rel_path, contents).subrange(
            9 + rel_path.len() as int,
            9 + rel_path.len() as int + contents.len() as int,
        ) == contents,
        markdown_fragment(rel_path, contents).subrange(
            9 + rel_path.len() as int + contents.len() as int,
            14 + rel_path.len() as int + contents.len() as int,
        ) == "\n```\n"@,
{
    reveal_strlit("### ");
    reveal_strlit("\n```\n");
    let frag = markdown_fragment(rel_path, contents);
    assert(frag.subrange(0, 4) =~= "### "@);
    assert(frag.subrange(4, 4 + rel_path.len() as int) =~= rel_path);
    assert(frag.subrange(4 + rel_path.len() as int, 9 + rel_path.len() as int) =~= "\n```\n"@);
    assert(frag.subrange(9 + rel_path.len() as int, 9 + rel_path.len() as int + contents.len() as int) =~= contents);
    assert(frag.subrange(
        9 + rel_path.len() as int + contents.len() as int,
        14 + rel_path.len() as int + contents.len() as int,
    ) =~= "\n```\n"@);
}

/// Renders one file's fragment in the given style.
pub fn render_fragment(rel_path: &str, contents: &str, format: OutputFormat) -> (r: String)
    ensures
        r@ == fragment_of(format, rel_path@, contents@),
{
    let mut out = String::new();
    match format {
        OutputFormat::Markdown => {
            push_str(&mut out, "### ");
            push_str(&mut out, rel_path);
            push_str(&mut out, "\n```\n");
            push_str(&mut out, contents);
            push_str(&mut out, "\n```\n");
            proof {
                assert(out@ =~= markdown_fragment(rel_path@, contents@));
            }
        }
        OutputFormat::Plain => {
            push_str(&mut out, rel_path);
            push_str(&mut out, "\n");
            push_str(&mut out, contents);
            push_str(&mut out, "\n");
            proof {
                assert(out@ =~= plain_fragment(rel_path@, contents@));
            }
        }
    }
    out
}

/// Renders one file in the style named by `format`, rejecting an
/// unknown style name with a `ConfigError` that carries it.
pub fn format_output(rel_path: &str, contents: &str, format: &str) -> (r: Result<String, ConfigError>)
    ensures
        format@ == "markdown"@ ==> (r matches Ok(s) && s@ == markdown_fragment(rel_path@, contents@)),
        format@ == "plain"@ ==> (r matches Ok(s) && s@ == plain_fragment(rel_path@, contents@)),
        format@ != "markdown"@ && format@ != "plain"@ ==> (r matches Err(e) && e.value@ == format@),
{
    match parse_output_format(format) {
        Ok(style) => Ok(render_fragment(rel_path, contents, style)),
        Err(e) => Err(e),
    }
}

} // verus!
