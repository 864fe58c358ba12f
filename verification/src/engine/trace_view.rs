//! Renders a trace's entries as one self-contained HTML page.

use vstd::prelude::*;
use crate::codec::{base64_encode, base64_standard};
use crate::engine::yaml_runner::TraceItem;
use crate::text::{chars_of, decimal, ends_with, has_prefix, has_suffix, push_char, starts_with, u64_decimal};

verus! {

/// One row of the rendered trace: the entry, the milliseconds since the
/// first entry, and (for a screenshot) the PNG it shows.
pub struct TraceRow {
    pub item: TraceItem,
    pub elapsed_ms: u64,
    pub png: Vec<u8>,
}

/// What one character becomes in HTML text.
pub open spec fn escape_html_char(c: char) -> Seq<char> {
    if c == '&' {
        "&amp;"@
    } else if c == '<' {
        "&lt;"@
    } else if c == '>' {
        "&gt;"@
    } else if c == '"' {
        "&quot;"@
    } else {
        seq![c]
    }
}

/// `s` with `&`, `<`, `>` and `"` written as HTML entities.
pub open spec fn escape_html(s: Seq<char>) -> Seq<char>
    decreases s.len(),
{
    if s.len() == 0 {
        Seq::empty()
    } else {
        escape_html(s.drop_last()) + escape_html_char(s.last())
    }
}

/// Escapes text for inclusion in HTML.
pub fn html_escape(s: &str) -> (r: String)
    ensures
        r@ == escape_html(s@),
{
    let v = chars_of(s);
    let mut out = String::new();
    let mut i: usize = 0;
    assert(v@.take(0) =~= Seq::<char>::empty());
    while i < v.len()
        invariant
            i <= v.len(),
            v@ == s@,
            out@ == escape_html(v@.take(i as int)),
        decreases v.len() - i,
    {
        let c = v[i];
        if c == '&' {
            out.append("&amp;");
        } else if c == '<' {
            out.append("&lt;");
        } else if c == '>' {
            out.append("&gt;");
        } else if c == '"' {
            out.append("&quot;");
        } else {
            push_char(&mut out, c);
        }
        assert(v@.take(i + 1).drop_last() =~= v@.take(i as int));
        assert(v@.take(i + 1).last() == c);
        i += 1;
    }
    assert(v@.take(v@.len() as int) =~= v@);
    out
}

/// Escaped text never holds a raw `<`, `>` or `"`, so it cannot open a tag
/// or close an attribute.
pub proof fn escaped_text_has_no_markup(s: Seq<char>)
    ensures
        forall|i: int| 0 <= i < escape_html(s).len() ==> {
            let c = #[trigger] escape_html(s)[i];
            c != '<' && c != '>' && c != '"'
        },
    decreases s.len(),
{
    reveal_strlit("&amp;");
    reveal_strlit("&lt;");
    reveal_strlit("&gt;");
    reveal_strlit("&quot;");
    if s.len() > 0 {
        escaped_text_has_no_markup(s.drop_last());
        let a = escape_html(s.drop_last());
        let b = escape_html_char(s.last());
        assert forall|i: int| 0 <= i < escape_html(s).len() implies {
            let c = #[trigger] escape_html(s)[i];
            c != '<' && c != '>' && c != '"'
        } by {
            if i < a.len() {
                assert(escape_html(s)[i] == a[i]);
            } else {
                assert(escape_html(s)[i] == b[i - a.len()]);
            }
        }
    }
}

/// Whether an action row is a failed assertion.
pub open spec fn is_failed_assert(text: Seq<char>) -> bool {
    has_prefix(text, "assert "@) && has_suffix(text, "fail"@)
}

/// The HTML of one row.
pub open spec fn row_html(row: TraceRow) -> Seq<char> {
    let elapsed = "+"@ + decimal(row.elapsed_ms as nat) + "ms"@;
    match row.item {
        TraceItem::Console { level, text } =>
            "<div class=\"row console\"><span class=\"t\">"@ + elapsed
                + "</span><span class=\"kind console\">"@ + escape_html(level@)
                + "</span><span class=\"text\">"@ + escape_html(text@) + "</span></div>\n"@,
        TraceItem::Exception { text } =>
            "<div class=\"row exception\"><span class=\"t\">"@ + elapsed
                + "</span><span class=\"kind exception\">exception</span><span class=\"text\">"@
                + escape_html(text@) + "</span></div>\n"@,
        TraceItem::Action { text } =>
            "<div class=\""@ + (if is_failed_assert(text@) { "row action fail"@ } else { "row action"@ })
                + "\"><span class=\"t\">"@ + elapsed
                + "</span><span class=\"kind action\">action</span><span class=\"text\">"@
                + escape_html(text@) + "</span></div>\n"@,
        TraceItem::Screenshot { path: _ } =>
            "<div class=\"row screenshot\"><span class=\"t\">"@ + elapsed
                + "</span><span class=\"kind screenshot\">screenshot</span><div><img src=\"data:image/png;base64,"@
                + base64_standard(row.png@) + "\" alt=\"screenshot\"></div></div>\n"@,
    }
}

/// The HTML of all rows, in order.
pub open spec fn rows_html(rows: Seq<TraceRow>) -> Seq<char>
    decreases rows.len(),
{
    if rows.len() == 0 {
        Seq::empty()
    } else {
        rows_html(rows.drop_last()) + row_html(rows.last())
    }
}

/// The page: a fixed head and stylesheet, an `<h1>` with the entry count,
/// the rows, and the closing tags.
pub open spec fn page_html(rows: Seq<TraceRow>) -> Seq<char> {
    PAGE_HEAD@ + decimal(rows.len()) + PAGE_MID@ + rows_html(rows) + PAGE_TAIL@
}

/// Everything up to the entry count.
pub const PAGE_HEAD: &'static str = "<!doctype html>\n<html lang=\"en\">\n<head>\n<meta charset=\"utf-8\">\n<title>aib trace</title>\n<style>\n  body { font-family: system-ui, sans-serif; background: #1e1e1e; color: #ddd; margin: 0; padding: 24px; }\n  h1 { font-size: 16px; font-weight: 600; color: #fff; margin: 0 0 16px; }\n  .row { display: flex; gap: 12px; padding: 8px 12px; border-left: 3px solid #444; margin-bottom: 4px; background: #262626; border-radius: 4px; align-items: flex-start; }\n  .t { color: #888; font-family: ui-monospace, monospace; font-size: 12px; width: 70px; flex-shrink: 0; padding-top: 2px; }\n  .kind { font-family: ui-monospace, monospace; font-size: 11px; font-weight: 700; text-transform: uppercase; padding: 2px 6px; border-radius: 3px; flex-shrink: 0; height: fit-content; }\n  .text { white-space: pre-wrap; word-break: break-word; font-family: ui-monospace, monospace; font-size: 13px; }\n  .row.action { border-left-color: #4a9eff; } .kind.action { background: #1a3a5c; color: #7cc0ff; }\n  .row.console { border-left-color: #888; } .kind.console { background: #333; color: #bbb; }\n  .row.exception { border-left-color: #ff5c5c; } .kind.exception { background: #4a1a1a; color: #ff8a8a; }\n  .row.screenshot { border-left-color: #b98eff; } .kind.screenshot { background: #3a2a5c; color: #d4b8ff; }\n  .row.fail { border-left-color: #ff5c5c; } .row.fail .kind { background: #4a1a1a; color: #ff8a8a; }\n  img { max-width: 480px; border-radius: 4px; margin-top: 6px; display: block; border: 1px solid #444; }\n</style>\n</head>\n<body>\n<h1>aib trace &mdash; ";

/// Between the entry count and the rows.
pub const PAGE_MID: &'static str = " entries</h1>\n";

/// After the rows.
pub const PAGE_TAIL: &'static str = "\n</body>\n</html>\n";

fn elapsed_text(ms: u64) -> (r: String)
    ensures
        r@ == "+"@ + decimal(ms as nat) + "ms"@,
{
    let mut r = String::new();
    r.append("+");
    let d = u64_decimal(ms);
    r.append(d.as_str());
    r.append("ms");
    r
}

/// Appends the HTML of one row.
pub fn write_row(out: &mut String, row: &TraceRow)
    ensures
        final(out)@ == old(out)@ + row_html(*row),
{
    let elapsed = elapsed_text(row.elapsed_ms);
    match &row.item {
        TraceItem::Console { level, text } => {
            out.append("<div class=\"row console\"><span class=\"t\">");
            out.append(elapsed.as_str());
            out.append("</span><span class=\"kind console\">");
            let l = html_escape(level.as_str());
            out.append(l.as_str());
            out.append("</span><span class=\"text\">");
            let t = html_escape(text.as_str());
            out.append(t.as_str());
            out.append("</span></div>\n");
        },
        TraceItem::Exception { text } => {
            out.append("<div class=\"row exception\"><span class=\"t\">");
            out.append(elapsed.as_str());
            out.append("</span><span class=\"kind exception\">exception</span><span class=\"text\">");
            let t = html_escape(text.as_str());
            out.append(t.as_str());
            out.append("</span></div>\n");
        },
        TraceItem::Action { text } => {
            let tv = chars_of(text.as_str());
            let a = chars_of("assert ");
            let f = chars_of("fail");
            let failed = starts_with(&tv, &a) && ends_with(&tv, &f);
            out.append("<div class=\"");
            if failed {
                out.append("row action fail");
            } else {
                out.append("row action");
            }
            out.append("\"><span class=\"t\">");
            out.append(elapsed.as_str());
            out.append("</span><span class=\"kind action\">action</span><span class=\"text\">");
            let t = html_escape(text.as_str());
            out.append(t.as_str());
            out.append("</span></div>\n");
        },
        TraceItem::Screenshot { .. } => {
            out.append("<div class=\"row screenshot\"><span class=\"t\">");
            out.append(elapsed.as_str());
            out.append("</span><span class=\"kind screenshot\">screenshot</span><div><img src=\"data:image/png;base64,");
            let b = base64_encode(row.png.as_slice());
            out.append(b.as_str());
            out.append("\" alt=\"screenshot\"></div></div>\n");
        },
    }
    assert(final(out)@ =~= old(out)@ + row_html(*row));
}

/// Renders the rows (already in chronological order) as a self-contained
/// HTML page.
pub fn render_html(rows: &Vec<TraceRow>) -> (r: String)
    ensures
        r@ == page_html(rows@),
{
    let mut body = String::new();
    let mut i: usize = 0;
    assert(rows@.take(0) =~= Seq::<TraceRow>::empty());
    while i < rows.len()
        invariant
            i <= rows.len(),
            body@ == rows_html(rows@.take(i as int)),
        decreases rows.len() - i,
    {
        write_row(&mut body, &rows[i]);
        assert(rows@.take(i + 1).drop_last() =~= rows@.take(i as int));
        i += 1;
    }
    assert(rows@.take(rows@.len() as int) =~= rows@);
    let mut out = String::new();
    out.append(PAGE_HEAD);
    let n = u64_decimal(rows.len() as u64);
    out.append(n.as_str());
    out.append(PAGE_MID);
    out.append(body.as_str());
    out.append(PAGE_TAIL);
    assert(out@ =~= page_html(rows@));
    out
}

} // verus!
