use vstd::prelude::*;
use vstd::string::*;
use crate::strutil::{append_chars, chars_into_string};

verus! {

/// What one character of literal text becomes in the styled-markup output:
/// the five markup-significant characters turn into their fixed entities, in
/// the order `&`, `<`, `>`, `"`, `'`; every other character stands as itself.
pub open spec fn esc_char(c: char) -> Seq<char> {
    if c == '&' {
        "&amp;"@
    } else if c == '<' {
        "&lt;"@
    } else if c == '>' {
        "&gt;"@
    } else if c == '"' {
        "&quot;"@
    } else if c == '\'' {
        "&#39;"@
    } else {
        seq![c]
    }
}

/// The escaping discipline applied to a whole text, character by character,
/// in a single left-to-right pass.
pub open spec fn escape_seq(s: Seq<char>) -> Seq<char>
    decreases s.len(),
{
    if s.len() == 0 {
        Seq::empty()
    } else {
        esc_char(s[0]) + escape_seq(s.drop_first())
    }
}

pub proof fn lemma_escape_snoc(s: Seq<char>, c: char)
    ensures
        escape_seq(s.push(c)) == escape_seq(s) + esc_char(c),
    decreases s.len(),
{
    if s.len() == 0 {
        let t = s.push(c);
        assert(t.drop_first() =~= Seq::<char>::empty());
        assert(escape_seq(t.drop_first()) =~= Seq::<char>::empty());
        assert(escape_seq(t) =~= esc_char(c));
        assert(escape_seq(s) + esc_char(c) =~= esc_char(c));
    } else {
        assert(s.push(c).drop_first() =~= s.drop_first().push(c));
        lemma_escape_snoc(s.drop_first(), c);
        assert(esc_char(s[0]) + (escape_seq(s.drop_first()) + esc_char(c)) =~= (esc_char(s[0])
            + escape_seq(s.drop_first())) + esc_char(c));
    }
}

/// Escape literal text for inclusion in the styled-markup document.
pub fn escape_html(text: &str) -> (r: String)
    ensures
        r@ == escape_seq(text@),
{
    let n = text.unicode_len();
    let mut buf: Vec<char> = Vec::new();
    let mut i: usize = 0;
    proof {
        assert(escape_seq(text@.take(0)) =~= Seq::<char>::empty());
    }
    while i < n
        invariant
            i <= n,
            n == text@.len(),
            buf@ == escape_seq(text@.take(i as int)),
        decreases n - i,
    {
        let c = text.get_char(i);
        if c == '&' {
            append_chars(&mut buf, "&amp;");
        } else if c == '<' {
            append_chars(&mut buf, "&lt;");
        } else if c == '>' {
            append_chars(&mut buf, "&gt;");
        } else if c == '"' {
            append_chars(&mut buf, "&quot;");
        } else if c == '\'' {
            append_chars(&mut buf, "&#39;");
        } else {
            buf.push(c);
        }
        proof {
            lemma_escape_snoc(text@.take(i as int), c);
            assert(text@.take(i + 1) =~= text@.take(i as int).push(c));
            assert(buf@ =~= escape_seq(text@.take(i as int)) + esc_char(c));
        }
        i = i + 1;
    }
    proof {
        assert(text@.take(n as int) =~= text@);
    }
    chars_into_string(buf)
}

/// Law: escaped text never contains a raw `<`, `>`, `"` or `'`; each was
/// replaced by its entity.
pub proof fn lemma_escape_no_raw_markup_chars(s: Seq<char>)
    ensures
        forall|i: int|
            0 <= i < escape_seq(s).len() ==> escape_seq(s)[i] != '<' && escape_seq(s)[i] != '>'
                && escape_seq(s)[i] != '"' && escape_seq(s)[i] != '\'',
    decreases s.len(),
{
    reveal_strlit("&amp;");
    reveal_strlit("&lt;");
    reveal_strlit("&gt;");
    reveal_strlit("&quot;");
    reveal_strlit("&#39;");
    if s.len() == 0 {
    } else {
        lemma_escape_no_raw_markup_chars(s.drop_first());
        assert forall|i: int|
            0 <= i < escape_seq(s).len() implies escape_seq(s)[i] != '<' && escape_seq(s)[i] != '>'
            && escape_seq(s)[i] != '"' && escape_seq(s)[i] != '\'' by {
            let head = esc_char(s[0]);
            let rest = escape_seq(s.drop_first());
            assert(escape_seq(s) == head + rest);
            if i < head.len() {
                assert(escape_seq(s)[i] == head[i]);
            } else {
                assert(escape_seq(s)[i] == rest[i - head.len()]);
            }
        }
    }
}

/// Whether one of the five entities of the escaping table starts at
/// position `i` of `t`.
pub open spec fn entity_at(t: Seq<char>, i: int) -> bool {
    ||| (i + 5 <= t.len() && t.subrange(i, i + 5) == "&amp;"@)
    ||| (i + 4 <= t.len() && t.subrange(i, i + 4) == "&lt;"@)
    ||| (i + 4 <= t.len() && t.subrange(i, i + 4) == "&gt;"@)
    ||| (i + 6 <= t.len() && t.subrange(i, i + 6) == "&quot;"@)
    ||| (i + 5 <= t.len() && t.subrange(i, i + 5) == "&#39;"@)
}

proof fn lemma_entity_at_shift(head: Seq<char>, rest: Seq<char>, j: int)
    requires
        0 <= j,
        entity_at(rest, j),
    ensures
        entity_at(head + rest, head.len() + j),
{
    let t = head + rest;
    let l = head.len() as int;
    if j + 5 <= rest.len() && rest.subrange(j, j + 5) == "&amp;"@ {
        assert(t.subrange(l + j, l + j + 5) =~= rest.subrange(j, j + 5));
    } else if j + 4 <= rest.len() && rest.subrange(j, j + 4) == "&lt;"@ {
        assert(t.subrange(l + j, l + j + 4) =~= rest.subrange(j, j + 4));
    } else if j + 4 <= rest.len() && rest.subrange(j, j + 4) == "&gt;"@ {
        assert(t.subrange(l + j, l + j + 4) =~= rest.subrange(j, j + 4));
    } else if j + 6 <= rest.len() && rest.subrange(j, j + 6) == "&quot;"@ {
        assert(t.subrange(l + j, l + j + 6) =~= rest.subrange(j, j + 6));
    } else {
        assert(t.subrange(l + j, l + j + 5) =~= rest.subrange(j, j + 5));
    }
}

/// Law: escaped text contains no bare ampersand. Every `&` in the output
/// begins one of the five entities of the escaping table.
pub proof fn lemma_escape_no_bare_amp(s: Seq<char>)
    ensures
        forall|i: int|
            0 <= i < escape_seq(s).len() && escape_seq(s)[i] == '&' ==> entity_at(
                escape_seq(s),
                i,
            ),
    decreases s.len(),
{
    reveal_strlit("&amp;");
    reveal_strlit("&lt;");
    reveal_strlit("&gt;");
    reveal_strlit("&quot;");
    reveal_strlit("&#39;");
    if s.len() == 0 {
    } else {
        lemma_escape_no_bare_amp(s.drop_first());
        let head = esc_char(s[0]);
        let rest = escape_seq(s.drop_first());
        let t = escape_seq(s);
        assert(t == head + rest);
        assert forall|i: int| 0 <= i < t.len() && t[i] == '&' implies entity_at(t, i) by {
            if i < head.len() {
                if s[0] == '&' || s[0] == '<' || s[0] == '>' || s[0] == '"' || s[0] == '\'' {
                    // within an entity only position 0 holds an ampersand
                    assert(t[i] == head[i]);
                    if i == 0 {
                        assert(t.subrange(0, head.len() as int) =~= head);
                    }
                } else {
                    assert(head =~= seq![s[0]]);
                    assert(t[i] == s[0]);
                }
            } else {
                assert(t[i] == rest[i - head.len()]);
                lemma_entity_at_shift(head, rest, i - head.len());
            }
        }
    }
}

} // verus!
