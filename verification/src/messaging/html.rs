//! Telegram HTML: escaping and links (teloxide's `utils::html`).
use vstd::prelude::*;

use crate::text::push_char;

verus! {

/// The escape of one character: `&`, `<` and `>` become entities.
pub open spec fn escape_char(c: char) -> Seq<char> {
    if c == '&' {
        "&amp;"@
    } else if c == '<' {
        "&lt;"@
    } else if c == '>' {
        "&gt;"@
    } else {
        seq![c]
    }
}

/// `s` escaped for Telegram's HTML style, character by character.
pub open spec fn html_escaped(s: Seq<char>) -> Seq<char>
    decreases s.len(),
{
    if s.len() == 0 {
        Seq::empty()
    } else {
        html_escaped(s.drop_last()) + escape_char(s.last())
    }
}

/// An HTML link to `url` showing `text`, both escaped.
pub open spec fn html_link(url: Seq<char>, text: Seq<char>) -> Seq<char> {
    "<a href=\""@ + html_escaped(url) + "\">"@ + html_escaped(text) + "</a>"@
}

/// Escapes `s` for Telegram's HTML style: `&`, `<` and `>` become their
/// entities and every other character stays (the rule of teloxide's
/// `utils::html::escape`).
pub fn escape(s: &str) -> (res: String)
    ensures
        res@ == html_escaped(s@),
{
    let n = s.unicode_len();
    let mut out = String::new();
    let mut i: usize = 0;
    while i < n
        invariant
            n == s@.len(),
            i <= n,
            out@ == html_escaped(s@.take(i as int)),
        decreases n - i,
    {
        let c = s.get_char(i);
        assert(s@.take(i + 1).drop_last() =~= s@.take(i as int));
        assert(s@.take(i + 1).last() == c);
        if c == '&' {
            out.append("&amp;");
        } else if c == '<' {
            out.append("&lt;");
        } else if c == '>' {
            out.append("&gt;");
        } else {
            push_char(&mut out, c);
            assert(seq![c] =~= escape_char(c));
        }
        i = i + 1;
    }
    assert(s@.take(n as int) =~= s@);
    out
}

/// An HTML link to `url` showing `text`, both escaped (the form of
/// teloxide's `utils::html::link`).
pub fn link(url: &str, text: &str) -> (res: String)
    ensures
        res@ == html_link(url@, text@),
{
    String::from_str("<a href=\"").concat(escape(url).as_str()).concat("\">").concat(
        escape(text).as_str(),
    ).concat("</a>")
}

/// Escaped text holds no `<` or `>`, so text shown through `escape`
/// cannot open or close an HTML tag.
pub proof fn law_escaped_text_has_no_tags(s: Seq<char>)
    ensures
        forall|i: int|
            0 <= i < html_escaped(s).len() ==> #[trigger] html_escaped(s)[i] != '<' && html_escaped(
                s,
            )[i] != '>',
    decreases s.len(),
{
    if s.len() > 0 {
        law_escaped_text_has_no_tags(s.drop_last());
        let head = html_escaped(s.drop_last());
        let tail = escape_char(s.last());
        reveal_strlit("&amp;");
        reveal_strlit("&lt;");
        reveal_strlit("&gt;");
        assert forall|i: int| 0 <= i < tail.len() implies #[trigger] tail[i] != '<' && tail[i]
            != '>' by {
        }
        assert forall|i: int| 0 <= i < html_escaped(s).len() implies #[trigger] html_escaped(s)[i]
            != '<' && html_escaped(s)[i] != '>' by {
            if i < head.len() {
                assert(html_escaped(s)[i] == head[i]);
            } else {
                assert(html_escaped(s)[i] == tail[i - head.len()]);
            }
        }
    }
}

} // verus!
