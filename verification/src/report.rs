//! Bug reports: the Discord markdown that the app, the updater and the
//! installer copy for the user when something fails, written with serenity's
//! `MessageBuilder`, which escapes the error's text.
use vstd::prelude::*;
use serenity::utils::MessageBuilder;
use crate::text::push_str;

verus! {

/// What `MessageBuilder::push_safe` appends for `text`: the text with
/// invite links, direction marks and mass mentions defused and markdown
/// emphasis and code marks escaped.
pub uninterp spec fn safe_markdown(text: Seq<char>) -> Seq<char>;

/// What stands between the fences of the Rust code block that
/// `MessageBuilder::push_codeblock_safe` appends for `code`.
pub uninterp spec fn code_block_body(code: Seq<char>) -> Seq<char>;

/// What stands between the backticks of the inline code that
/// `MessageBuilder::push_mono_safe` appends for `text`.
pub uninterp spec fn inline_code_body(text: Seq<char>) -> Seq<char>;

/// A Rust code block holding `code`.
pub open spec fn code_block(code: Seq<char>) -> Seq<char> {
    "```rust\n"@ + code_block_body(code) + "\n```"@
}

/// Inline code holding `text`.
pub open spec fn inline_code(text: Seq<char>) -> Seq<char> {
    "`"@ + inline_code_body(text) + "`"@
}

/// Calls `MessageBuilder::push_safe` on an empty builder. Its contract claims
/// only that the result is the same for the same text (named `safe_markdown`).
#[verifier::external_body]
fn markdown_safe(text: &str) -> (r: String)
    ensures
        r@ == safe_markdown(text@),
{
    let mut builder = MessageBuilder::default();
    builder.push_safe(text);
    builder.0
}

/// Calls `MessageBuilder::push_codeblock_safe` with the language `rust` on an
/// empty builder. Its contract claims the fences the source writes around the
/// code, and names what stands between them (`code_block_body`).
#[verifier::external_body]
fn markdown_code_block(code: &str) -> (r: String)
    ensures
        r@ == "```rust\n"@ + code_block_body(code@) + "\n```"@,
{
    let mut builder = MessageBuilder::default();
    builder.push_codeblock_safe(code, Some("rust"));
    builder.0
}

/// Calls `MessageBuilder::push_mono_safe` on an empty builder. Its contract
/// claims the backticks the source writes around the text, and names what
/// stands between them (`inline_code_body`).
#[verifier::external_body]
fn markdown_inline_code(text: &str) -> (r: String)
    ensures
        r@ == "`"@ + inline_code_body(text@) + "`"@,
{
    let mut builder = MessageBuilder::default();
    builder.push_mono_safe(text);
    builder.0
}

/// A report on one error: the heading on a line of its own, the error's
/// message escaped on the next, and its debug form in a code block.
pub open spec fn error_report_text(heading: Seq<char>, display: Seq<char>, debug: Seq<char>) -> Seq<char> {
    heading + "\n"@ + safe_markdown(display) + "\n"@ + code_block(debug)
}

/// The report on one error.
pub fn error_report(heading: &str, display: &str, debug: &str) -> (r: String)
    ensures
        r@ == error_report_text(heading@, display@, debug@),
{
    let mut s = String::new();
    push_str(&mut s, heading);
    push_str(&mut s, "\n");
    let safe = markdown_safe(display);
    push_str(&mut s, safe.as_str());
    push_str(&mut s, "\n");
    let block = markdown_code_block(debug);
    push_str(&mut s, block.as_str());
    assert(s@ =~= error_report_text(heading@, display@, debug@));
    s
}

/// The lines on the serial ports that failed, each port name in inline code
/// and its error's debug form in a code block.
pub open spec fn port_error_lines(errors: Seq<(Seq<char>, Seq<char>)>) -> Seq<char>
    decreases errors.len(),
{
    if errors.len() == 0 {
        Seq::empty()
    } else {
        port_error_lines(errors.drop_last()) + "\n"@ + inline_code(errors.last().0) + ":\n"@ + code_block(
            errors.last().1,
        )
    }
}

/// The names and error texts of `errors`.
pub open spec fn port_errors_view(errors: Seq<(String, String)>) -> Seq<(Seq<char>, Seq<char>)> {
    errors.map_values(|e: (String, String)| (e.0@, e.1@))
}

/// The report on a failed search for an EverDrive: the heading, then a line
/// for each serial port that failed, with the port's error.
pub fn port_errors_report(heading: &str, errors: &Vec<(String, String)>) -> (r: String)
    ensures
        r@ == heading@ + port_error_lines(port_errors_view(errors@)),
{
    let mut s = String::new();
    push_str(&mut s, heading);
    let ghost all = port_errors_view(errors@);
    let mut i: usize = 0;
    while i < errors.len()
        invariant
            i <= errors@.len(),
            all == port_errors_view(errors@),
            s@ == heading@ + port_error_lines(all.take(i as int)),
        decreases errors.len() - i,
    {
        let ghost before = s@;
        let (port, error) = &errors[i];
        push_str(&mut s, "\n");
        let port_text = markdown_inline_code(port.as_str());
        push_str(&mut s, port_text.as_str());
        push_str(&mut s, ":\n");
        let block = markdown_code_block(error.as_str());
        push_str(&mut s, block.as_str());
        proof {
            let t = all.take(i + 1);
            assert(t.drop_last() =~= all.take(i as int));
            assert(t.last() == (port@, error@));
            assert(s@ =~= before + "\n"@ + inline_code(port@) + ":\n"@ + code_block(error@));
        }
        i = i + 1;
    }
    assert(all.take(i as int) =~= all);
    s
}

} // verus!
