use vstd::prelude::*;

use crate::entry::{Entry, EntryModel, views_of};

verus! {

/// What one character contributes to HTML-escaped text: the five
/// characters that carry markup meaning become entity references,
/// every other character stands unchanged.
pub open spec fn escaped_char(c: char) -> Seq<char> {
    if c == '&' {
        "&amp;"@
    } else if c == '<' {
        "&lt;"@
    } else if c == '>' {
        "&gt;"@
    } else if c == '"' {
        "&quot;"@
    } else if c == '\'' {
        "&#x27;"@
    } else {
        seq![c]
    }
}

/// HTML-escaped text: each character's contribution, concatenated in order.
pub open spec fn escaped(s: Seq<char>) -> Seq<char>
    decreases s.len(),
{
    if s.len() == 0 {
        Seq::empty()
    } else {
        escaped(s.drop_last()) + escaped_char(s.last())
    }
}

/// The decimal digit character for a value below ten.
pub open spec fn digit_char(d: nat) -> char {
    if d == 0 {
        '0'
    } else if d == 1 {
        '1'
    } else if d == 2 {
        '2'
    } else if d == 3 {
        '3'
    } else if d == 4 {
        '4'
    } else if d == 5 {
        '5'
    } else if d == 6 {
        '6'
    } else if d == 7 {
        '7'
    } else if d == 8 {
        '8'
    } else {
        '9'
    }
}

/// The usual decimal notation of a natural number, without leading zeros
/// (a single zero for zero itself).
pub open spec fn decimal(n: nat) -> Seq<char>
    decreases n,
{
    if n < 10 {
        seq![digit_char(n)]
    } else {
        decimal(n / 10) + seq![digit_char(n % 10)]
    }
}

/// Relies on std's `String::push`: appends the given character at the end.
#[verifier::external_body]
fn push_char(out: &mut String, c: char)
    ensures
        final(out)@ == old(out)@ + seq![c],
{
    out.push(c);
}

fn digit_to_char(d: u32) -> (c: char)
    requires
        d < 10,
    ensures
        c == digit_char(d as nat),
{
    if d == 0 {
        '0'
    } else if d == 1 {
        '1'
    } else if d == 2 {
        '2'
    } else if d == 3 {
        '3'
    } else if d == 4 {
        '4'
    } else if d == 5 {
        '5'
    } else if d == 6 {
        '6'
    } else if d == 7 {
        '7'
    } else if d == 8 {
        '8'
    } else {
        '9'
    }
}

/// Appends the decimal notation of `n`.
pub fn append_decimal(out: &mut String, n: u32)
    ensures
        final(out)@ == old(out)@ + decimal(n as nat),
    decreases n,
{
    if n < 10 {
        let c = digit_to_char(n);
        push_char(out, c);
    } else {
        append_decimal(out, n / 10);
        let c = digit_to_char(n % 10);
        push_char(out, c);
        proof {
            assert(out@ =~= old(out)@ + decimal(n as nat));
        }
    }
}

/// HTML-escapes a string: `<`, `>`, `&`, `"` and `'` become entity
/// references, everything else is kept as it is.
pub fn escape_html(s: &str) -> (r: String)
    ensures
        r@ == escaped(s@),
{
    let len = s.unicode_len();
    let mut out = String::new();
    let mut i: usize = 0;
    while i < len
        invariant
            len == s@.len(),
            i <= len,
            out@ == escaped(s@.take(i as int)),
        decreases len - i,
    {
        let c = s.get_char(i);
        if c == '&' {
            out.append("&amp;");
        } else if c == '<' {
            out.append("&lt;");
        } else if c == '>' {
            out.append("&gt;");
        } else if c == '"' {
            out.append("&quot;");
        } else if c == '\'' {
            out.append("&#x27;");
        } else {
            push_char(&mut out, c);
        }
        proof {
            let t = s@.take(i + 1 as int);
            assert(t.drop_last() =~= s@.take(i as int));
            assert(t.last() == s@[i as int]);
            assert(out@ =~= escaped(s@.take(i + 1 as int)));
        }
        i = i + 1;
    }
    proof {
        assert(s@.take(len as int) =~= s@);
    }
    out
}

/// Everything of the page that stands before the entry rows.
pub open spec fn page_head() -> Seq<char> {
    "<!DOCTYPE html>\n<html>\n<head><title>Todo</title></head>\n<body>\n<h1>Todo</h1>\n<ul>\n"@
}

/// Everything of the page that stands after the entry rows.
pub open spec fn page_foot() -> Seq<char> {
    "</ul>\n</body>\n</html>\n"@
}

/// One rendered entry row: the identifier in decimal, then the text,
/// HTML-escaped.
pub open spec fn row_of(m: EntryModel) -> Seq<char> {
    "<li>"@ + decimal(m.id as nat) + ": "@ + escaped(m.text) + "</li>\n"@
}

/// All entry rows, concatenated in order.
pub open spec fn rows_of(ms: Seq<EntryModel>) -> Seq<char>
    decreases ms.len(),
{
    if ms.len() == 0 {
        Seq::empty()
    } else {
        rows_of(ms.drop_last()) + row_of(ms.last())
    }
}

/// The whole page for a sequence of entries: head, one row per entry in
/// order, foot.
pub open spec fn spec_render_page(ms: Seq<EntryModel>) -> Seq<char> {
    page_head() + rows_of(ms) + page_foot()
}

fn append_row(out: &mut String, e: &Entry)
    ensures
        final(out)@ == old(out)@ + row_of(e@),
{
    out.append("<li>");
    append_decimal(out, e.id);
    out.append(": ");
    let esc = escape_html(e.text.as_str());
    out.append(esc.as_str());
    out.append("</li>\n");
    proof {
        assert(out@ =~= old(out)@ + row_of(e@));
    }
}

/// Renders the page for the given entries. The result is a function of the
/// entries alone: the same sequence always renders to the same text.
pub fn render_page(entries: &Vec<Entry>) -> (r: String)
    ensures
        r@ == spec_render_page(views_of(entries@)),
{
    let mut out = String::new();
    out.append(
        "<!DOCTYPE html>\n<html>\n<head><title>Todo</title></head>\n<body>\n<h1>Todo</h1>\n<ul>\n",
    );
    let mut i: usize = 0;
    while i < entries.len()
        invariant
            i <= entries@.len(),
            out@ == page_head() + rows_of(views_of(entries@).take(i as int)),
        decreases entries@.len() - i,
    {
        append_row(&mut out, &entries[i]);
        proof {
            let vs = views_of(entries@);
            let t = vs.take(i + 1 as int);
            assert(t.drop_last() =~= vs.take(i as int));
            assert(t.last() == vs[i as int]);
            assert(out@ =~= page_head() + rows_of(vs.take(i + 1 as int)));
        }
        i = i + 1;
    }
    out.append("</ul>\n</body>\n</html>\n");
    proof {
        let vs = views_of(entries@);
        assert(vs.take(vs.len() as int) =~= vs);
        assert(out@ =~= spec_render_page(vs));
    }
    out
}

/// The row of each entry, as a sequence of row texts, in order.
pub open spec fn row_list(ms: Seq<EntryModel>) -> Seq<Seq<char>> {
    ms.map_values(|m: EntryModel| row_of(m))
}

proof fn lemma_rows_of_is_flattened_row_list(ms: Seq<EntryModel>)
    ensures
        rows_of(ms) == row_list(ms).flatten_alt(),
    decreases ms.len(),
{
    if ms.len() == 0 {
        assert(row_list(ms).len() == 0);
    } else {
        lemma_rows_of_is_flattened_row_list(ms.drop_last());
        assert(row_list(ms.drop_last()) =~= row_list(ms).drop_last());
        assert(row_list(ms).last() == row_of(ms.last()));
        assert(rows_of(ms) == row_list(ms).flatten_alt());
    }
}

/// The page renders one row per entry: it is the head, then the
/// concatenation of the entries' rows in order, then the foot, and the
/// number of rows equals the number of entries.
pub proof fn lemma_row_per_entry(ms: Seq<EntryModel>)
    ensures
        spec_render_page(ms) == page_head() + row_list(ms).flatten() + page_foot(),
        row_list(ms).len() == ms.len(),
{
    lemma_rows_of_is_flattened_row_list(ms);
    row_list(ms).lemma_flatten_and_flatten_alt_are_equivalent();
    assert(row_list(ms).flatten() == rows_of(ms));
}

proof fn lemma_row_within_rows(ms: Seq<EntryModel>, i: int)
    requires
        0 <= i < ms.len(),
    ensures
        ({
            let r = row_of(ms[i]);
            let all = rows_of(ms);
            exists|j: int|
                0 <= j && j + r.len() <= all.len() && #[trigger] all.subrange(
                    j,
                    j + r.len() as int,
                ) == r
        }),
    decreases ms.len(),
{
    let r = row_of(ms[i]);
    let all = rows_of(ms);
    if i == ms.len() - 1 {
        let j = rows_of(ms.drop_last()).len() as int;
        assert(ms.last() == ms[i]);
        assert(all.subrange(j, j + r.len() as int) =~= r);
        assert(0 <= j && j + r.len() <= all.len() && all.subrange(j, j + r.len() as int) == r);
    } else {
        lemma_row_within_rows(ms.drop_last(), i);
        assert(ms.drop_last()[i] == ms[i]);
        let prev = rows_of(ms.drop_last());
        let j = choose|j: int|
            0 <= j && j + r.len() <= prev.len() && #[trigger] prev.subrange(
                j,
                j + r.len() as int,
            ) == r;
        assert(all.subrange(j, j + r.len() as int) =~= prev.subrange(j, j + r.len() as int));
        assert(0 <= j && j + r.len() <= all.len() && all.subrange(j, j + r.len() as int) == r);
    }
}

/// Every entry's text stands in the rendered page, HTML-escaped: the page
/// has a stretch that is exactly the escaped text of that entry.
pub proof fn lemma_text_rendered(ms: Seq<EntryModel>, i: int)
    requires
        0 <= i < ms.len(),
    ensures
        ({
            let page = spec_render_page(ms);
            let esc = escaped(ms[i].text);
            exists|j: int|
                0 <= j && j + esc.len() <= page.len() && #[trigger] page.subrange(
                    j,
                    j + esc.len() as int,
                ) == esc
        }),
{
    let page = spec_render_page(ms);
    let esc = escaped(ms[i].text);
    let r = row_of(ms[i]);
    let all = rows_of(ms);
    lemma_row_within_rows(ms, i);
    let j0 = choose|j: int|
        0 <= j && j + r.len() <= all.len() && #[trigger] all.subrange(j, j + r.len() as int) == r;
    let pre = "<li>"@ + decimal(ms[i].id as nat) + ": "@;
    assert(r.subrange(pre.len() as int, pre.len() + esc.len() as int) =~= esc);
    let j = page_head().len() + j0 + pre.len();
    assert forall|k: int| 0 <= k < esc.len() implies page[j + k] == esc[k] by {
        assert(all[j0 + pre.len() + k] == all.subrange(j0, j0 + r.len() as int)[pre.len() + k]);
        assert(r[pre.len() + k] == r.subrange(pre.len() as int, pre.len() + esc.len() as int)[k]);
    }
    assert(page.subrange(j as int, j + esc.len()) =~= esc);
    assert(0 <= j && j + esc.len() <= page.len() && page.subrange(j as int, j + esc.len()) == esc);
}

/// Escaping leaves no markup behind: no character of escaped text is `<`
/// or `>`, so entry text can never contribute a tag to the page.
pub proof fn lemma_escaped_no_markup(s: Seq<char>, i: int)
    requires
        0 <= i < escaped(s).len(),
    ensures
        escaped(s)[i] != '<' && escaped(s)[i] != '>',
    decreases s.len(),
{
    reveal_strlit("&amp;");
    reveal_strlit("&lt;");
    reveal_strlit("&gt;");
    reveal_strlit("&quot;");
    reveal_strlit("&#x27;");
    if s.len() > 0 {
        if i < escaped(s.drop_last()).len() {
            lemma_escaped_no_markup(s.drop_last(), i);
        } else {
            let c = s.last();
            assert("&amp;"@ =~= seq!['&', 'a', 'm', 'p', ';']);
            assert("&lt;"@ =~= seq!['&', 'l', 't', ';']);
            assert("&gt;"@ =~= seq!['&', 'g', 't', ';']);
            assert("&quot;"@ =~= seq!['&', 'q', 'u', 'o', 't', ';']);
            assert("&#x27;"@ =~= seq!['&', '#', 'x', '2', '7', ';']);
            assert(escaped(s)[i] == escaped_char(c)[i - escaped(s.drop_last()).len()]);
        }
    }
}

/// An empty entry sequence renders the fixed page with zero rows: just
/// the head and the foot, a well-formed document.
pub proof fn lemma_empty_page(ms: Seq<EntryModel>)
    requires
        ms.len() == 0,
    ensures
        spec_render_page(ms) == page_head() + page_foot(),
{
    assert(spec_render_page(ms) =~= page_head() + page_foot());
}

/// Rendering is deterministic: two renderings of the same entry sequence
/// are identical, character for character.
pub proof fn lemma_render_deterministic(ms: Seq<EntryModel>, a: Seq<char>, b: Seq<char>)
    requires
        a == spec_render_page(ms),
        b == spec_render_page(ms),
    ensures
        a == b,
{
}

}
