use vstd::prelude::*;
use vstd::string::StringExecFns;
use crate::strutil::dash_to_underscore;
use crate::strutil::join_seq;
use crate::strutil::join_with;
use crate::strutil::replace_dashes;

verus! {

/// The fixed column width every comment block is wrapped to.
pub const LINE_WIDTH: usize = 79;

/// What `textwrap::wrap` returns for `text` at `width`, with `indent`
/// put before the first and every following line.
pub uninterp spec fn wrap_of(text: Seq<char>, width: int, indent: Seq<char>) -> Seq<Seq<char>>;

/// Relies on textwrap::wrap: the wrapped lines depend only on the text,
/// the width and the indent strings (here the same for every line).
#[verifier::external_body]
fn wrap_text(text: &str, width: usize, indent: &str) -> (r: Vec<String>)
    ensures
        r.deep_view() == wrap_of(text@, width as int, indent@),
{
    let options = textwrap::Options::new(width).initial_indent(indent).subsequent_indent(indent);
    textwrap::wrap(text, options).into_iter().map(|line| line.into_owned()).collect()
}

/// `value` word-wrapped to [`LINE_WIDTH`] columns, each line prefixed
/// by `comment_char` and one space, the lines joined by newlines.
pub open spec fn spec_comment_license(value: Seq<char>, comment_char: Seq<char>) -> Seq<char> {
    join_seq(wrap_of(value, LINE_WIDTH as int, comment_char + " "@), "\n"@)
}

/// Turns `value` into a comment block: word-wrapped to a fixed width,
/// every line prefixed by `comment_char` plus one space.
pub fn comment_license(value: &str, comment_char: &str) -> (r: String)
    ensures
        r@ == spec_comment_license(value@, comment_char@),
{
    let sep = String::from_str(comment_char).concat(" ");
    let lines = wrap_text(value, LINE_WIDTH, sep.as_str());
    join_with(&lines, "\n")
}

/// `value` with every hyphen replaced by an underscore, for use as a
/// portable identifier.
pub fn hypens_to_underscores(value: &str) -> (r: String)
    ensures
        r@ == value@.map_values(|c: char| dash_to_underscore(c)),
{
    replace_dashes(value)
}

} // verus!
