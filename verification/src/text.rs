//! Text primitives of the wire protocol: characters, lines and decimal numbers.

use vstd::prelude::*;
use vstd::string::StringSliceAdditionalSpecFns;
use vstd::utf8::{decode_utf8, valid_utf8};

verus! {

/// `core::str::Utf8Error`: why some bytes are no UTF-8.
#[verifier::external_type_specification]
#[verifier::external_body]
pub struct ExUtf8Error(core::str::Utf8Error);

/// `core::str::from_utf8` succeeds on the byte sequences that are well-formed
/// UTF-8 and on no others, and the text it gives is made of the very bytes
/// that it was given.
pub assume_specification[ core::str::from_utf8 ](v: &[u8]) -> (r: Result<
    &str,
    core::str::Utf8Error,
>)
    ensures
        r is Ok <==> valid_utf8(v@),
        r matches Ok(s) ==> s.spec_bytes() == v@,
;

/// `String::push` appends one character to the string and changes nothing else.
pub assume_specification[ String::push ](s: &mut String, ch: char)
    ensures
        final(s)@ == old(s)@.push(ch),
;

/// The characters of an optional string.
pub open spec fn option_text(s: Option<String>) -> Option<Seq<char>> {
    match s {
        Some(s) => Some(s@),
        None => None,
    }
}

/// The text that `bytes` encode in UTF-8, if they encode any.
pub open spec fn decoded(bytes: Seq<u8>) -> Option<Seq<char>> {
    if valid_utf8(bytes) {
        Some(decode_utf8(bytes))
    } else {
        None
    }
}

/// The text that `bytes` encode in UTF-8, if they encode any.
pub fn decode(bytes: &[u8]) -> (text: Option<String>)
    ensures
        option_text(text) == decoded(bytes@),
{
    match core::str::from_utf8(bytes) {
        Ok(text) => {
            proof {
                vstd::utf8::encode_utf8_decode_utf8(text@);
            }
            Some(text.to_owned())
        },
        Err(_) => None,
    }
}

/// The characters of `s`, in order.
pub fn chars_of(s: &str) -> (v: Vec<char>)
    ensures
        v@ == s@,
{
    let mut v: Vec<char> = Vec::new();
    for c in it: s.chars()
        invariant
            it.seq() == s@,
            v@ == it.seq().take(it.index()),
    {
        v.push(c);
    }
    v
}

/// What a sequence of strings holds, each string as its characters.
pub open spec fn texts(v: Seq<String>) -> Seq<Seq<char>> {
    v.map_values(|s: String| s@)
}

/// `texts` follows a `push`.
pub proof fn lemma_texts_push(v: Seq<String>, s: String)
    ensures
        texts(v.push(s)) == texts(v).push(s@),
{
    assert(texts(v.push(s)) =~= texts(v).push(s@));
}

/// The string whose characters are `chars[from..to]`.
pub fn string_of(chars: &Vec<char>, from: usize, to: usize) -> (s: String)
    requires
        from <= to <= chars@.len(),
    ensures
        s@ == chars@.subrange(from as int, to as int),
{
    let mut s = String::new();
    let mut i: usize = from;
    while i < to
        invariant
            from <= i <= to <= chars@.len(),
            s@ == chars@.subrange(from as int, i as int),
        decreases to - i,
    {
        s.push(chars[i]);
        i += 1;
        assert(s@ =~= chars@.subrange(from as int, i as int));
    }
    s
}

/// Position of the first line feed of `s` at or after `from`, or the length
/// of `s` where there is none.
pub open spec fn line_end(s: Seq<char>, from: int) -> int
    decreases s.len() - from,
{
    if from < 0 || from >= s.len() {
        s.len() as int
    } else if s[from] == '\n' {
        from
    } else {
        line_end(s, from + 1)
    }
}

/// A line without the carriage return that may stand before its line feed.
pub open spec fn trim_cr(line: Seq<char>) -> Seq<char> {
    if line.len() > 0 && line.last() == '\r' {
        line.drop_last()
    } else {
        line
    }
}

/// The lines of `s` from position `from` on.
pub open spec fn lines_from(s: Seq<char>, from: int) -> Seq<Seq<char>>
    decreases s.len() - from,
    via lines_from_terminates
{
    if from < 0 || from >= s.len() {
        Seq::empty()
    } else {
        let end = line_end(s, from);
        if end >= s.len() {
            seq![s.subrange(from, s.len() as int)]
        } else {
            seq![trim_cr(s.subrange(from, end))] + lines_from(s, end + 1)
        }
    }
}

/// The lines of a text. A line ends at a line feed, or at a carriage return
/// directly followed by one; neither belongs to the line. The last line needs
/// no terminator, and a terminator at the very end opens no further line.
pub open spec fn lines(s: Seq<char>) -> Seq<Seq<char>> {
    lines_from(s, 0)
}

pub proof fn lemma_line_end_bounds(s: Seq<char>, from: int)
    requires
        0 <= from <= s.len(),
    ensures
        from <= line_end(s, from) <= s.len(),
        line_end(s, from) < s.len() ==> s[line_end(s, from)] == '\n',
        forall|k: int| from <= k < line_end(s, from) ==> s[k] != '\n',
    decreases s.len() - from,
{
    if from < s.len() && s[from] != '\n' {
        lemma_line_end_bounds(s, from + 1);
    }
}

#[via_fn]
proof fn lines_from_terminates(s: Seq<char>, from: int) {
    if 0 <= from < s.len() {
        lemma_line_end_bounds(s, from);
    }
}

/// Splits a text into its lines.
pub fn split_lines(s: &str) -> (out: Vec<String>)
    ensures
        texts(out@) == lines(s@),
{
    let chars = chars_of(s);
    let n: usize = chars.len();
    let mut out: Vec<String> = Vec::new();
    let mut start: usize = 0;
    let mut i: usize = 0;
    while i < n
        invariant
            chars@ == s@,
            n == chars@.len(),
            start <= i <= n,
            line_end(s@, start as int) == line_end(s@, i as int),
            lines(s@) == texts(out@) + lines_from(s@, start as int),
        decreases n - i,
    {
        if chars[i] == '\n' {
            let end: usize = if i > start && chars[i - 1] == '\r' { i - 1 } else { i };
            let line = string_of(&chars, start, end);
            proof {
                assert(line_end(s@, i as int) == i);
                assert(line@ =~= trim_cr(s@.subrange(start as int, i as int)));
                assert(texts(out@).push(line@) + lines_from(s@, i + 1)
                    =~= texts(out@) + lines_from(s@, start as int));
                lemma_texts_push(out@, line);
            }
            out.push(line);
            start = i + 1;
        }
        i += 1;
    }
    if start < n {
        let line = string_of(&chars, start, n);
        proof {
            assert(line_end(s@, n as int) == n);
            assert(texts(out@).push(line@) =~= texts(out@) + lines_from(s@, start as int));
            lemma_texts_push(out@, line);
        }
        out.push(line);
    } else {
        assert(texts(out@) + lines_from(s@, start as int) =~= texts(out@));
    }
    out
}


/// All the lines of `parts` one after the other, with nothing between them.
pub open spec fn concat(parts: Seq<Seq<char>>) -> Seq<char>
    decreases parts.len(),
{
    if parts.len() == 0 {
        Seq::empty()
    } else {
        concat(parts.drop_last()) + parts.last()
    }
}

/// What is left of `parts` after its first `from` items; nothing where it
/// has no more than that.
pub open spec fn rest<A>(parts: Seq<A>, from: int) -> Seq<A> {
    if 0 <= from <= parts.len() {
        parts.skip(from)
    } else {
        Seq::empty()
    }
}

/// The strings `parts[from..]` one after the other.
pub fn concat_from(parts: &Vec<String>, from: usize) -> (s: String)
    ensures
        s@ == concat(rest(texts(parts@), from as int)),
{
    let mut s = String::new();
    let n: usize = parts.len();
    if from >= n {
        assert(rest(texts(parts@), from as int) =~= Seq::<Seq<char>>::empty());
        return s;
    }
    let mut i: usize = from;
    assert(texts(parts@).subrange(from as int, i as int) =~= Seq::<Seq<char>>::empty());
    while i < n
        invariant
            from <= i <= n,
            n == parts@.len(),
            s@ == concat(texts(parts@).subrange(from as int, i as int)),
        decreases n - i,
    {
        s.append(parts[i].as_str());
        proof {
            let next = texts(parts@).subrange(from as int, i + 1);
            assert(next.drop_last() =~= texts(parts@).subrange(from as int, i as int));
            assert(next.last() == parts@[i as int]@);
        }
        i += 1;
    }
    assert(texts(parts@).subrange(from as int, n as int) =~= texts(parts@).skip(from as int));
    s
}

/// The character of a decimal digit.
pub open spec fn digit(d: nat) -> char {
    ((48 + d % 10) as u8) as char
}

/// A natural number in decimal, without leading zeros.
pub open spec fn decimal(n: nat) -> Seq<char>
    decreases n,
{
    if n < 10 {
        seq![digit(n)]
    } else {
        decimal(n / 10).push(digit(n % 10))
    }
}

/// Appends `n` in decimal to `s`.
pub fn push_decimal(s: &mut String, n: usize)
    ensures
        final(s)@ == old(s)@ + decimal(n as nat),
    decreases n,
{
    if n >= 10 {
        push_decimal(s, n / 10);
    }
    let d: u8 = (n % 10) as u8;
    s.push((48u8 + d) as char);
    assert(final(s)@ =~= old(s)@ + decimal(n as nat));
}

/// `n` in decimal.
pub fn decimal_string(n: usize) -> (s: String)
    ensures
        s@ == decimal(n as nat),
{
    let mut s = String::new();
    push_decimal(&mut s, n);
    s
}

/// No character of `s` is a line feed.
pub open spec fn one_line(s: Seq<char>) -> bool {
    forall|i: int| 0 <= i < s.len() ==> s[i] != '\n'
}

/// Behind a prefix, a line ends where it ends without the prefix.
proof fn lemma_line_end_shift(prefix: Seq<char>, s: Seq<char>, from: int)
    requires
        0 <= from <= s.len(),
    ensures
        line_end(prefix + s, prefix.len() + from) == prefix.len() + line_end(s, from),
    decreases s.len() - from,
{
    if from < s.len() {
        assert((prefix + s)[prefix.len() + from] == s[from]);
        if s[from] != '\n' {
            lemma_line_end_shift(prefix, s, from + 1);
        }
    }
}

/// Behind a prefix, the lines are what they are without the prefix.
proof fn lemma_lines_shift(prefix: Seq<char>, s: Seq<char>, from: int)
    requires
        0 <= from <= s.len(),
    ensures
        lines_from(prefix + s, prefix.len() + from) == lines_from(s, from),
    decreases s.len() - from,
{
    if from < s.len() {
        let whole = prefix + s;
        let end = line_end(s, from);
        lemma_line_end_bounds(s, from);
        lemma_line_end_shift(prefix, s, from);
        if end < s.len() {
            assert(whole.subrange(prefix.len() + from, prefix.len() + end) =~= s.subrange(
                from,
                end,
            ));
            lemma_lines_shift(prefix, s, end + 1);
        } else {
            assert(whole.subrange(prefix.len() + from, whole.len() as int) =~= s.subrange(
                from,
                s.len() as int,
            ));
        }
    }
}

/// A text without line feed that is not empty is its own single line.
pub proof fn lemma_lines_single(s: Seq<char>)
    requires
        one_line(s),
    ensures
        lines(s) == if s.len() == 0 {
            Seq::<Seq<char>>::empty()
        } else {
            seq![s]
        },
{
    if s.len() > 0 {
        lemma_line_end_bounds(s, 0);
        let end = line_end(s, 0);
        if end < s.len() {
            assert(s[end] == '\n');
        }
        assert(s.subrange(0, s.len() as int) =~= s);
    }
}

/// A text without line feed, a line feed behind it and then more text: the
/// first line is that text, but for a carriage return at its end, and the
/// other lines are those of what follows.
pub proof fn lemma_lines_prepend(head: Seq<char>, tail: Seq<char>)
    requires
        one_line(head),
    ensures
        lines(head + seq!['\n'] + tail) == seq![trim_cr(head)] + lines(tail),
{
    let prefix = head + seq!['\n'];
    let whole = prefix + tail;
    lemma_line_end_bounds(whole, 0);
    let end = line_end(whole, 0);
    assert(whole[head.len() as int] == '\n');
    if end < head.len() {
        assert(whole[end] == head[end]);
    }
    assert(end == head.len());
    assert(whole.subrange(0, end) =~= head);
    lemma_lines_shift(prefix, tail, 0);
}

/// The text that holds `parts` as its lines: one line feed between each two.
pub open spec fn join_lines(parts: Seq<Seq<char>>) -> Seq<char>
    decreases parts.len(),
{
    if parts.len() == 0 {
        Seq::empty()
    } else if parts.len() == 1 {
        parts[0]
    } else {
        parts[0] + seq!['\n'] + join_lines(parts.drop_first())
    }
}

/// `parts` can be told apart again once they are joined: none holds a line
/// feed, none but the last ends in a carriage return, and the last is not
/// empty.
pub open spec fn separable(parts: Seq<Seq<char>>) -> bool {
    &&& forall|i: int| 0 <= i < parts.len() ==> one_line(#[trigger] parts[i])
    &&& forall|i: int|
        0 <= i < parts.len() - 1 ==> trim_cr(#[trigger] parts[i]) == parts[i]
    &&& parts.len() > 0 ==> parts.last().len() > 0
}

/// Splitting undoes joining.
pub proof fn lemma_lines_of_join(parts: Seq<Seq<char>>)
    requires
        separable(parts),
    ensures
        lines(join_lines(parts)) == parts,
    decreases parts.len(),
{
    if parts.len() == 0 {
        assert(lines(join_lines(parts)) =~= parts);
    } else if parts.len() == 1 {
        lemma_lines_single(parts[0]);
        assert(seq![parts[0]] =~= parts);
    } else {
        let others = parts.drop_first();
        assert forall|i: int| 0 <= i < others.len() implies one_line(#[trigger] others[i]) by {
            assert(others[i] == parts[i + 1]);
        }
        assert forall|i: int| 0 <= i < others.len() - 1 implies trim_cr(#[trigger] others[i])
            == others[i] by {
            assert(others[i] == parts[i + 1]);
        }
        assert(others.last() == parts.last());
        lemma_lines_of_join(others);
        lemma_lines_prepend(parts[0], join_lines(others));
        assert(trim_cr(parts[0]) == parts[0]);
        assert(seq![parts[0]] + others =~= parts);
    }
}

} // verus!
