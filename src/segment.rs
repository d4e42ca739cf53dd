//! Turning free text into an ordered sequence of translation units.

use vstd::prelude::*;

verus! {

/// The characters with the Unicode `White_Space` property.
pub open spec fn is_space(c: char) -> bool {
    let u = c as u32;
    (0x9 <= u && u <= 0xd) || u == 0x20 || u == 0x85 || u == 0xa0 || u == 0x1680 || (0x2000 <= u
        && u <= 0x200a) || u == 0x2028 || u == 0x2029 || u == 0x202f || u == 0x205f || u == 0x3000
}

/// `s` without its leading white space.
pub open spec fn trim_start(s: Seq<char>) -> Seq<char>
    decreases s.len(),
{
    if s.len() > 0 && is_space(s[0]) {
        trim_start(s.drop_first())
    } else {
        s
    }
}

/// `s` without its trailing white space.
pub open spec fn trim_end(s: Seq<char>) -> Seq<char>
    decreases s.len(),
{
    if s.len() > 0 && is_space(s.last()) {
        trim_end(s.drop_last())
    } else {
        s
    }
}

/// `s` without white space at either end.
pub open spec fn trim(s: Seq<char>) -> Seq<char> {
    trim_end(trim_start(s))
}

/// Whether `c` has the Unicode `White_Space` property.
fn is_whitespace(c: char) -> (r: bool)
    ensures
        r == is_space(c),
{
    let u = c as u32;
    (0x9 <= u && u <= 0xd) || u == 0x20 || u == 0x85 || u == 0xa0 || u == 0x1680 || (0x2000 <= u
        && u <= 0x200a) || u == 0x2028 || u == 0x2029 || u == 0x202f || u == 0x205f || u == 0x3000
}

/// The characters of `v` without white space at either end.
fn trim_chars(v: &Vec<char>) -> (r: Vec<char>)
    ensures
        r@ == trim(v@),
{
    let n = v.len();
    let mut lo: usize = 0;
    assert(v@.subrange(0, n as int) =~= v@);
    while lo < n && is_whitespace(v[lo])
        invariant
            n == v@.len(),
            lo <= n,
            trim_start(v@) == trim_start(v@.subrange(lo as int, n as int)),
        decreases n - lo,
    {
        assert(v@.subrange(lo as int, n as int).drop_first() =~= v@.subrange(
            lo as int + 1,
            n as int,
        ));
        lo = lo + 1;
    }
    assert(trim_start(v@) == v@.subrange(lo as int, n as int));
    let mut hi: usize = n;
    while hi > lo && is_whitespace(v[hi - 1])
        invariant
            n == v@.len(),
            lo <= hi <= n,
            trim(v@) == trim_end(v@.subrange(lo as int, hi as int)),
        decreases hi,
    {
        assert(v@.subrange(lo as int, hi as int).drop_last() =~= v@.subrange(
            lo as int,
            hi as int - 1,
        ));
        hi = hi - 1;
    }
    let mut r: Vec<char> = Vec::new();
    let mut i: usize = lo;
    while i < hi
        invariant
            lo <= i <= hi <= n,
            n == v@.len(),
            r@ == v@.subrange(lo as int, i as int),
        decreases hi - i,
    {
        r.push(v[i]);
        assert(r@ =~= v@.subrange(lo as int, i as int + 1));
        i = i + 1;
    }
    r
}

/// Splitting `s` at each `sep`, read from the left: the pieces already closed
/// by a separator, and the piece still open. A closed piece holds its
/// separator at its end when `keep` holds.
pub open spec fn cut(s: Seq<char>, sep: char, keep: bool) -> (Seq<Seq<char>>, Seq<char>)
    decreases s.len(),
{
    if s.len() == 0 {
        (Seq::empty(), Seq::empty())
    } else {
        let (done, open) = cut(s.drop_last(), sep, keep);
        if s.last() == sep {
            (
                done.push(
                    if keep {
                        open.push(sep)
                    } else {
                        open
                    },
                ),
                Seq::empty(),
            )
        } else {
            (done, open.push(s.last()))
        }
    }
}

/// The pieces of `s` split at each `sep`; a last piece is kept only when it is
/// not empty. With `keep` this is the inclusive split, each piece but the last
/// ending in its separator.
pub open spec fn split_on(s: Seq<char>, sep: char, keep: bool) -> Seq<Seq<char>> {
    let (done, open) = cut(s, sep, keep);
    if open.len() > 0 {
        done.push(open)
    } else {
        done
    }
}

/// The lines of a text, as a buffered reader yields them: split at each line
/// feed, with no empty line after a final line feed.
pub open spec fn lines_of(text: Seq<char>) -> Seq<Seq<char>> {
    split_on(text, '\n', false)
}

/// The sentences of a buffer: split after each period, each piece trimmed.
pub open spec fn sentences(buf: Seq<char>) -> Seq<Seq<char>> {
    split_on(buf, '.', true).map_values(|p: Seq<char>| trim(p))
}

/// The character sequences held by a sequence of character vectors.
pub open spec fn char_views(v: Seq<Vec<char>>) -> Seq<Seq<char>> {
    v.map_values(|x: Vec<char>| x@)
}

/// The character sequences held by a sequence of strings.
pub open spec fn text_views(v: Seq<String>) -> Seq<Seq<char>> {
    v.map_values(|x: String| x@)
}

/// The characters of `s`, in order.
fn chars_of(s: &str) -> (r: Vec<char>)
    ensures
        r@ == s@,
{
    let mut r: Vec<char> = Vec::new();
    for c in it: s.chars()
        invariant
            r@ == it.seq().take(it.index() as int),
    {
        r.push(c);
        assert(r@ =~= it.seq().take(it.index() as int + 1));
    }
    r
}

/// Splits `s` at each `sep`, keeping the separator at the end of its piece
/// when `keep` holds.
fn split_chars(s: &Vec<char>, sep: char, keep: bool) -> (r: Vec<Vec<char>>)
    ensures
        char_views(r@) == split_on(s@, sep, keep),
{
    let n = s.len();
    let mut done: Vec<Vec<char>> = Vec::new();
    let mut open: Vec<char> = Vec::new();
    assert(s@.take(0) =~= Seq::<char>::empty());
    assert(char_views(done@) =~= Seq::<Seq<char>>::empty());
    for i in 0..n
        invariant
            n == s@.len(),
            cut(s@.take(i as int), sep, keep) == (char_views(done@), open@),
    {
        assert(s@.take(i as int + 1).drop_last() =~= s@.take(i as int));
        let c = s[i];
        if c == sep {
            if keep {
                open.push(sep);
            }
            let piece = open;
            done.push(piece);
            open = Vec::new();
        } else {
            open.push(c);
        }
        assert(char_views(done@) =~= cut(s@.take(i as int + 1), sep, keep).0);
        assert(open@ =~= cut(s@.take(i as int + 1), sep, keep).1);
    }
    assert(s@.take(n as int) =~= s@);
    if open.len() > 0 {
        done.push(open);
        assert(char_views(done@) =~= split_on(s@, sep, keep));
    }
    done
}

/// Relies on `String::push`: appends one character.
#[verifier::external_body]
fn push_char(s: &mut String, c: char)
    ensures
        final(s)@ == old(s)@.push(c),
{
    s.push(c)
}

/// The string made of the characters of `v`.
fn string_of(v: &Vec<char>) -> (r: String)
    ensures
        r@ == v@,
{
    let mut r = String::new();
    let n = v.len();
    for i in 0..n
        invariant
            n == v@.len(),
            r@ == v@.take(i as int),
    {
        push_char(&mut r, v[i]);
        assert(r@ =~= v@.take(i as int + 1));
    }
    assert(v@.take(n as int) =~= v@);
    r
}

/// One line of input read into the state `(units, buffer)`: the trimmed line
/// joins the buffer; a buffer that then ends in a period is flushed as its
/// sentences; an empty buffer records an empty unit, a paragraph break;
/// anything else waits for the next line, after a separating space.
pub open spec fn step(st: (Seq<Seq<char>>, Seq<char>), line: Seq<char>) -> (
    Seq<Seq<char>>,
    Seq<char>,
) {
    let buf = st.1 + trim(line);
    if buf.len() > 0 && buf.last() == '.' {
        (st.0 + sentences(buf), Seq::empty())
    } else if buf.len() == 0 {
        (st.0.push(Seq::empty()), Seq::empty())
    } else {
        (st.0, buf.push(' '))
    }
}

/// The state `(units, buffer)` after reading `lines` in order from an empty
/// start.
pub open spec fn run(lines: Seq<Seq<char>>) -> (Seq<Seq<char>>, Seq<char>)
    decreases lines.len(),
{
    if lines.len() == 0 {
        (Seq::empty(), Seq::empty())
    } else {
        step(run(lines.drop_last()), lines.last())
    }
}

/// The translation units of `text`: its lines read in order, and what is left
/// in the buffer at the end flushed as its sentences, with or without a final
/// period.
pub open spec fn segments(text: Seq<char>) -> Seq<Seq<char>> {
    let (units, buf) = run(lines_of(text));
    if buf.len() > 0 {
        units + sentences(buf)
    } else {
        units
    }
}

/// Appends the trimmed sentences of `buf` to `out`.
fn flush(buf: &Vec<char>, out: &mut Vec<String>)
    ensures
        text_views(final(out)@) == text_views(old(out)@) + sentences(buf@),
{
    let pieces = split_chars(buf, '.', true);
    let n = pieces.len();
    let ghost start = text_views(out@);
    assert(char_views(pieces@).len() == n);
    for i in 0..n
        invariant
            n == pieces@.len(),
            char_views(pieces@) == split_on(buf@, '.', true),
            text_views(out@) == start + sentences(buf@).take(i as int),
    {
        let t = trim_chars(&pieces[i]);
        assert(char_views(pieces@)[i as int] == pieces@[i as int]@);
        assert(sentences(buf@)[i as int] == trim(pieces@[i as int]@));
        let ghost prev = out@;
        let u = string_of(&t);
        out.push(u);
        assert(text_views(out@) =~= text_views(prev).push(u@));
        assert(sentences(buf@).len() == n);
        assert(sentences(buf@).take(i as int + 1) =~= sentences(buf@).take(i as int).push(u@));
        assert(text_views(out@) =~= start + sentences(buf@).take(i as int + 1));
    }
    assert(sentences(buf@).take(n as int) =~= sentences(buf@));
}

/// Splits free text into translation units.
///
/// Lines are trimmed and joined with single spaces until the joined text ends
/// in a period; it is then split after every period and each piece, trimmed,
/// becomes a unit. A blank line met with nothing pending becomes an empty
/// unit, which marks a paragraph break. Whatever is pending at the end of the
/// text becomes units in the same way, final period or not.
pub fn prepare_prompts(text: &str) -> (r: Vec<String>)
    ensures
        text_views(r@) == segments(text@),
{
    let cs = chars_of(text);
    let lines = split_chars(&cs, '\n', false);
    let ghost ls = char_views(lines@);
    let n = lines.len();
    let mut out: Vec<String> = Vec::new();
    let mut buf: Vec<char> = Vec::new();
    assert(ls.take(0) =~= Seq::<Seq<char>>::empty());
    assert(text_views(out@) =~= Seq::<Seq<char>>::empty());
    for i in 0..n
        invariant
            n == lines@.len(),
            ls == char_views(lines@),
            ls == lines_of(text@),
            run(ls.take(i as int)) == (text_views(out@), buf@),
    {
        assert(ls.take(i as int + 1).drop_last() =~= ls.take(i as int));
        let ghost before = (text_views(out@), buf@);
        let t = trim_chars(&lines[i]);
        let mut k: usize = 0;
        while k < t.len()
            invariant
                k <= t@.len(),
                buf@ == before.1 + t@.take(k as int),
            decreases t@.len() - k,
        {
            buf.push(t[k]);
            assert(buf@ =~= before.1 + t@.take(k as int + 1));
            k = k + 1;
        }
        assert(t@.take(t@.len() as int) =~= t@);
        let m = buf.len();
        if m > 0 && buf[m - 1] == '.' {
            flush(&buf, &mut out);
            buf = Vec::new();
        } else if m == 0 {
            out.push(String::new());
            assert(text_views(out@) =~= before.0.push(Seq::empty()));
        } else {
            buf.push(' ');
        }
        assert(buf@ =~= run(ls.take(i as int + 1)).1);
        assert(text_views(out@) =~= run(ls.take(i as int + 1)).0);
    }
    assert(ls.take(n as int) =~= ls);
    if buf.len() > 0 {
        flush(&buf, &mut out);
    }
    out
}

} // verus!
