use vstd::prelude::*;
use crate::strutil::{append_chars, chars_into_string, str_to_chars};

verus! {

/// The position of the last occurrence of `c` in `s`, or -1 when `c` does
/// not occur.
pub open spec fn last_pos(s: Seq<char>, c: char) -> int
    decreases s.len(),
{
    if s.len() == 0 {
        -1
    } else if s[s.len() - 1] == c {
        s.len() - 1
    } else {
        last_pos(s.drop_last(), c)
    }
}

/// Where the extension of the final path component starts (the position of
/// its dot), or the length of the path when it has no extension. A dot
/// that begins the file name does not start an extension.
pub open spec fn stem_end(p: Seq<char>) -> int {
    if last_pos(p, '.') > last_pos(p, '/') + 1 {
        last_pos(p, '.')
    } else {
        p.len() as int
    }
}

/// The path with its extension replaced by `ext`: everything up to the
/// extension dot (or the whole path when there is none), then a dot, then
/// `ext`.
pub open spec fn with_ext_seq(p: Seq<char>, ext: Seq<char>) -> Seq<char> {
    p.take(stem_end(p)) + seq!['.'] + ext
}

pub proof fn lemma_last_pos_bounds(s: Seq<char>, c: char)
    ensures
        -1 <= last_pos(s, c) < s.len(),
    decreases s.len(),
{
    if s.len() > 0 && s[s.len() - 1] != c {
        lemma_last_pos_bounds(s.drop_last(), c);
    }
}

fn rfind_char(v: &Vec<char>, c: char) -> (r: Option<usize>)
    ensures
        match r {
            Some(j) => last_pos(v@, c) == j as int,
            None => last_pos(v@, c) == -1,
        },
{
    let mut i: usize = v.len();
    proof {
        assert(v@.take(v@.len() as int) =~= v@);
    }
    while i > 0
        invariant
            i <= v@.len(),
            last_pos(v@, c) == last_pos(v@.take(i as int), c),
        decreases i,
    {
        if v[i - 1] == c {
            return Some(i - 1);
        }
        proof {
            assert(v@.take(i as int).drop_last() =~= v@.take(i - 1));
        }
        i = i - 1;
    }
    None
}

/// Replace the path's extension (or add one where there is none).
pub fn with_extension(path: &str, ext: &str) -> (r: String)
    ensures
        r@ == with_ext_seq(path@, ext@),
{
    let chars = str_to_chars(path);
    let n = chars.len();
    proof {
        lemma_last_pos_bounds(path@, '.');
        lemma_last_pos_bounds(path@, '/');
    }
    let dot = rfind_char(&chars, '.');
    let slash = rfind_char(&chars, '/');
    let cut: usize = match (dot, slash) {
        (Some(d), Some(s)) => if d > s + 1 {
            d
        } else {
            n
        },
        (Some(d), None) => if d > 0 {
            d
        } else {
            n
        },
        _ => n,
    };
    proof {
        assert(cut as int == stem_end(path@));
    }
    let mut out: Vec<char> = Vec::new();
    let mut i: usize = 0;
    while i < cut
        invariant
            i <= cut,
            cut <= chars@.len(),
            chars@ == path@,
            out@ == path@.take(cut as int).take(i as int),
        decreases cut - i,
    {
        out.push(chars[i]);
        proof {
            assert(path@.take(cut as int).take(i + 1) =~= path@.take(cut as int).take(
                i as int,
            ).push(path@[i as int]));
        }
        i = i + 1;
    }
    proof {
        assert(path@.take(cut as int).take(cut as int) =~= path@.take(cut as int));
    }
    out.push('.');
    append_chars(&mut out, ext);
    proof {
        assert(out@ =~= with_ext_seq(path@, ext@));
    }
    chars_into_string(out)
}

/// One character of a path as it appears in a local-file reference: a
/// space is percent-encoded, everything else stands as itself.
pub open spec fn url_char(c: char) -> Seq<char> {
    if c == ' ' {
        "%20"@
    } else {
        seq![c]
    }
}

pub open spec fn url_encode_seq(s: Seq<char>) -> Seq<char>
    decreases s.len(),
{
    if s.len() == 0 {
        Seq::empty()
    } else {
        url_char(s[0]) + url_encode_seq(s.drop_first())
    }
}

/// The local-file reference that the rendering engine is pointed at.
pub open spec fn file_url_seq(p: Seq<char>) -> Seq<char> {
    "file:///"@ + url_encode_seq(p)
}

proof fn lemma_url_encode_snoc(s: Seq<char>, c: char)
    ensures
        url_encode_seq(s.push(c)) == url_encode_seq(s) + url_char(c),
    decreases s.len(),
{
    if s.len() == 0 {
        let t = s.push(c);
        assert(t.drop_first() =~= Seq::<char>::empty());
        assert(url_encode_seq(t.drop_first()) =~= Seq::<char>::empty());
        assert(url_encode_seq(t) =~= url_char(c));
        assert(url_encode_seq(s) + url_char(c) =~= url_char(c));
    } else {
        assert(s.push(c).drop_first() =~= s.drop_first().push(c));
        lemma_url_encode_snoc(s.drop_first(), c);
        assert(url_char(s[0]) + (url_encode_seq(s.drop_first()) + url_char(c)) =~= (url_char(s[0])
            + url_encode_seq(s.drop_first())) + url_char(c));
    }
}

/// Build the local-file reference for a path, percent-encoding spaces.
pub fn file_url(path: &str) -> (r: String)
    ensures
        r@ == file_url_seq(path@),
{
    let mut buf: Vec<char> = Vec::new();
    append_chars(&mut buf, "file:///");
    let n = path.unicode_len();
    let mut i: usize = 0;
    proof {
        assert(url_encode_seq(path@.take(0)) =~= Seq::<char>::empty());
        assert(buf@ =~= "file:///"@ + url_encode_seq(path@.take(0)));
    }
    while i < n
        invariant
            i <= n,
            n == path@.len(),
            buf@ == "file:///"@ + url_encode_seq(path@.take(i as int)),
        decreases n - i,
    {
        let c = path.get_char(i);
        if c == ' ' {
            append_chars(&mut buf, "%20");
        } else {
            buf.push(c);
        }
        proof {
            lemma_url_encode_snoc(path@.take(i as int), c);
            assert(path@.take(i + 1) =~= path@.take(i as int).push(c));
            assert(buf@ =~= "file:///"@ + url_encode_seq(path@.take(i + 1)));
        }
        i = i + 1;
    }
    proof {
        assert(path@.take(n as int) =~= path@);
    }
    chars_into_string(buf)
}

} // verus!
