//! Text building blocks: decimal numbers, Unicode white space, and the
//! single-line form in which free text is shown in the tray and the log.
use vstd::prelude::*;

verus! {

/// `String::push` appends one character.
///
/// Trusted: std documents that `push` "appends the given char to the end of
/// this String"; the claim is exactly that, over the characters of the string.
pub assume_specification[ String::push ](string: &mut String, ch: char)
    ensures
        final(string)@ == old(string)@.push(ch),
;

/// The decimal digit character for `d < 10`.
pub open spec fn digit_char(d: nat) -> char {
    (('0' as nat) + d) as char
}

/// The decimal notation of `n`, without sign or leading zeros.
pub open spec fn decimal_text(n: nat) -> Seq<char>
    decreases n,
{
    if n < 10 {
        seq![digit_char(n)]
    } else {
        decimal_text(n / 10).push(digit_char(n % 10))
    }
}

/// Appends the decimal notation of `n` to `out`.
pub fn push_decimal(out: &mut String, n: u64)
    ensures
        final(out)@ == old(out)@ + decimal_text(n as nat),
    decreases n,
{
    if n >= 10 {
        push_decimal(out, n / 10);
    }
    let digit: u8 = (n % 10) as u8;
    let ch: char = (48u8 + digit) as char;
    assert(ch == digit_char((n % 10) as nat));
    out.push(ch);
    assert(decimal_text(n as nat) =~= if n < 10 {
        seq![digit_char(n as nat)]
    } else {
        decimal_text((n / 10) as nat).push(digit_char((n % 10) as nat))
    });
}

/// Whether a character has the Unicode `White_Space` property, which is what
/// `char::is_whitespace` and `str::split_whitespace` go by.
pub open spec fn is_white_space(c: char) -> bool {
    let v = c as u32;
    ||| 0x9 <= v <= 0xd
    ||| v == 0x20
    ||| v == 0x85
    ||| v == 0xa0
    ||| v == 0x1680
    ||| 0x2000 <= v <= 0x200a
    ||| v == 0x2028
    ||| v == 0x2029
    ||| v == 0x202f
    ||| v == 0x205f
    ||| v == 0x3000
}

/// Whether `c` is Unicode white space.
pub fn white_space(c: char) -> (ws: bool)
    ensures
        ws == is_white_space(c),
{
    let v = c as u32;
    (0x9 <= v && v <= 0xd) || v == 0x20 || v == 0x85 || v == 0xa0 || v == 0x1680 || (0x2000 <= v
        && v <= 0x200a) || v == 0x2028 || v == 0x2029 || v == 0x202f || v == 0x205f || v == 0x3000
}

/// The words of `s`: its maximal runs of characters that are not white
/// space, in order (what `str::split_whitespace` yields).
pub open spec fn words(s: Seq<char>) -> Seq<Seq<char>>
    decreases s.len(),
{
    if s.len() == 0 {
        seq![]
    } else {
        let before = words(s.drop_last());
        let c = s.last();
        if is_white_space(c) {
            before
        } else if s.len() >= 2 && !is_white_space(s[s.len() - 2]) {
            before.update(before.len() - 1, before.last().push(c))
        } else {
            before.push(seq![c])
        }
    }
}

/// The words joined with one space between neighbours.
pub open spec fn join_words(ws: Seq<Seq<char>>) -> Seq<char>
    decreases ws.len(),
{
    if ws.len() == 0 {
        seq![]
    } else if ws.len() == 1 {
        ws[0]
    } else {
        join_words(ws.drop_last()) + seq![' '] + ws.last()
    }
}

/// `s` with every run of white space turned into one space and white space at
/// either end removed.
pub open spec fn single_spaced(s: Seq<char>) -> Seq<char> {
    join_words(words(s))
}

/// The number of bytes that UTF-8 takes for `c`.
pub open spec fn utf8_width(c: char) -> nat {
    let v = c as u32;
    if v < 0x80 {
        1
    } else if v < 0x800 {
        2
    } else if v < 0x10000 {
        3
    } else {
        4
    }
}

/// The number of bytes that UTF-8 takes for `s` (what `str::len` returns).
pub open spec fn utf8_length(s: Seq<char>) -> nat
    decreases s.len(),
{
    if s.len() == 0 {
        0
    } else {
        utf8_length(s.drop_last()) + utf8_width(s.last())
    }
}

/// The most bytes that a single-line text takes.
pub const LINE_LIMIT: usize = 96;

/// How many bytes of an over-long text are kept before the ellipsis.
pub const LINE_KEEP: usize = 93;

/// Whether the first `bytes` bytes of `s` end on a character boundary.
pub open spec fn has_byte_prefix(s: Seq<char>, bytes: nat) -> bool {
    exists|i: int| 0 <= i <= s.len() && #[trigger] utf8_length(s.take(i)) == bytes
}

/// The characters that make up the first `bytes` bytes of `s`.
pub open spec fn byte_prefix(s: Seq<char>, bytes: nat) -> Seq<char> {
    s.take(choose|i: int| 0 <= i <= s.len() && #[trigger] utf8_length(s.take(i)) == bytes)
}

/// `s` on one line: single-spaced and, when that takes more than
/// [`LINE_LIMIT`] bytes, cut to its first [`LINE_KEEP`] bytes followed by `...`.
pub open spec fn one_line_text(s: Seq<char>) -> Seq<char> {
    let spaced = single_spaced(s);
    if utf8_length(spaced) > LINE_LIMIT {
        byte_prefix(spaced, LINE_KEEP as nat) + "..."@
    } else {
        spaced
    }
}

/// The inputs on which the cut of [`one_line_text`] falls on a character
/// boundary; on the others `String::truncate` would panic.
pub open spec fn one_line_defined(s: Seq<char>) -> bool {
    utf8_length(single_spaced(s)) > LINE_LIMIT ==> has_byte_prefix(
        single_spaced(s),
        LINE_KEEP as nat,
    )
}

/// Every word is non-empty and free of white space, and a text that ends in a
/// character that is not white space has at least one word.
pub proof fn lemma_words_shape(s: Seq<char>)
    ensures
        forall|i: int| 0 <= i < words(s).len() ==> #[trigger] words(s)[i].len() > 0,
        forall|i: int, j: int|
            0 <= i < words(s).len() && 0 <= j < words(s)[i].len() ==> !is_white_space(
                #[trigger] words(s)[i][j],
            ),
        s.len() > 0 && !is_white_space(s.last()) ==> words(s).len() > 0,
    decreases s.len(),
{
    if s.len() > 0 {
        lemma_words_shape(s.drop_last());
        let before = words(s.drop_last());
        let c = s.last();
        if !is_white_space(c) && s.len() >= 2 && !is_white_space(s[s.len() - 2]) {
            assert(s.drop_last().last() == s[s.len() - 2]);
            let w = before.last().push(c);
            assert forall|i: int, j: int|
                0 <= i < words(s).len() && 0 <= j < words(s)[i].len() implies !is_white_space(
                #[trigger] words(s)[i][j],
            ) by {
                if i == before.len() - 1 {
                    if j < before.last().len() {
                        assert(words(s)[i][j] == before[i][j]);
                    }
                } else {
                    assert(words(s)[i] == before[i]);
                }
            }
        } else if !is_white_space(c) {
            assert forall|i: int, j: int|
                0 <= i < words(s).len() && 0 <= j < words(s)[i].len() implies !is_white_space(
                #[trigger] words(s)[i][j],
            ) by {
                if i < before.len() {
                    assert(words(s)[i] == before[i]);
                }
            }
        }
    }
}

/// Appending a word puts one space before it.
pub proof fn lemma_join_push(ws: Seq<Seq<char>>, w: Seq<char>)
    ensures
        join_words(ws.push(w)) == if ws.len() == 0 {
            w
        } else {
            join_words(ws) + seq![' '] + w
        },
{
    assert(ws.push(w).drop_last() =~= ws);
}

/// Growing the last word grows the joined text by the same character.
pub proof fn lemma_join_extend_last(ws: Seq<Seq<char>>, c: char)
    requires
        ws.len() > 0,
    ensures
        join_words(ws.update(ws.len() - 1, ws.last().push(c))) == join_words(ws).push(c),
{
    let grown = ws.update(ws.len() - 1, ws.last().push(c));
    if ws.len() > 1 {
        assert(grown.drop_last() =~= ws.drop_last());
        assert(join_words(grown) =~= join_words(ws).push(c));
    }
}

/// The joined text is empty exactly when there are no words, given that no
/// word is empty.
pub proof fn lemma_join_nonempty(ws: Seq<Seq<char>>)
    requires
        forall|i: int| 0 <= i < ws.len() ==> #[trigger] ws[i].len() > 0,
    ensures
        ws.len() > 0 ==> join_words(ws).len() > 0,
    decreases ws.len(),
{
    if ws.len() > 1 {
        lemma_join_nonempty(ws.drop_last());
    }
}

/// Extending a text by one character.
proof fn lemma_take_next(s: Seq<char>, i: int)
    requires
        0 <= i < s.len(),
    ensures
        s.take(i + 1).drop_last() == s.take(i),
        s.take(i + 1).last() == s[i],
        utf8_length(s.take(i + 1)) == utf8_length(s.take(i)) + utf8_width(s[i]),
{
    assert(s.take(i + 1).drop_last() =~= s.take(i));
}

/// Longer prefixes take strictly more bytes.
pub proof fn lemma_prefix_bytes_grow(s: Seq<char>, i: int, j: int)
    requires
        0 <= i < j <= s.len(),
    ensures
        utf8_length(s.take(i)) < utf8_length(s.take(j)),
    decreases j - i,
{
    lemma_take_next(s, j - 1);
    if i < j - 1 {
        lemma_prefix_bytes_grow(s, i, j - 1);
    }
}

/// The number of bytes that UTF-8 takes for `c`.
pub fn utf8_width_of(c: char) -> (width: usize)
    ensures
        width == utf8_width(c),
        1 <= width <= 4,
{
    let v = c as u32;
    if v < 0x80 {
        1
    } else if v < 0x800 {
        2
    } else if v < 0x10000 {
        3
    } else {
        4
    }
}

/// `value` with every run of white space turned into one space and white space
/// at either end removed.
pub fn single_spaced_string(value: &str) -> (spaced: String)
    ensures
        spaced@ == single_spaced(value@),
{
    let mut spaced = String::new();
    let mut in_word = false;
    let mut has_words = false;
    for c in it: value.chars()
        invariant
            it.seq() == value@,
            spaced@ == single_spaced(value@.take(it.index())),
            in_word == (it.index() > 0 && !is_white_space(value@[it.index() - 1])),
            has_words == (words(value@.take(it.index())).len() > 0),
    {
        let ghost index = it.index();
        let ghost before = value@.take(index);
        let ghost after = value@.take(index + 1);
        proof {
            lemma_take_next(value@, index);
            lemma_words_shape(before);
            lemma_join_nonempty(words(before));
            if index > 0 {
                assert(before.last() == value@[index - 1]);
                assert(after[after.len() - 2] == value@[index - 1]);
            }
        }
        if white_space(c) {
            in_word = false;
        } else if in_word {
            proof {
                lemma_join_extend_last(words(before), c);
            }
            spaced.push(c);
        } else {
            proof {
                lemma_join_push(words(before), seq![c]);
            }
            if has_words {
                spaced.push(' ');
            }
            spaced.push(c);
            has_words = true;
            in_word = true;
            assert(spaced@ =~= single_spaced(after));
        }
    }
    proof {
        assert(value@.take(value@.len() as int) =~= value@);
    }
    spaced
}

/// `value` on one line: single-spaced, and cut to [`LINE_KEEP`] bytes followed
/// by `...` when the single-spaced text is longer than [`LINE_LIMIT`] bytes.
pub fn one_line(value: &str) -> (line: String)
    requires
        one_line_defined(value@),
    ensures
        line@ == one_line_text(value@),
{
    let spaced = single_spaced_string(value);
    let ghost whole = spaced@;
    let mut kept = String::new();
    let mut kept_bytes: usize = 0;
    let ghost mut kept_chars: int = 0;
    let mut open = true;
    let mut total: usize = 0;
    for c in it: spaced.as_str().chars()
        invariant
            it.seq() == whole,
            0 <= kept_chars <= it.index(),
            kept@ == whole.take(kept_chars),
            kept_bytes == utf8_length(whole.take(kept_chars)),
            kept_bytes <= LINE_KEEP,
            open ==> kept_chars == it.index(),
            !open ==> utf8_length(whole.take(kept_chars + 1)) > LINE_KEEP,
            total == if utf8_length(whole.take(it.index())) > LINE_LIMIT + 1 {
                (LINE_LIMIT + 1) as int
            } else {
                utf8_length(whole.take(it.index())) as int
            },
    {
        let ghost index = it.index();
        proof {
            lemma_take_next(whole, index);
        }
        let width = utf8_width_of(c);
        if total <= LINE_LIMIT {
            total = total + width;
            if total > LINE_LIMIT + 1 {
                total = LINE_LIMIT + 1;
            }
        }
        if open {
            if kept_bytes + width <= LINE_KEEP {
                kept.push(c);
                kept_bytes = kept_bytes + width;
                proof {
                    kept_chars = kept_chars + 1;
                }
                assert(kept@ =~= whole.take(kept_chars));
            } else {
                open = false;
            }
        }
    }
    assert(whole.take(whole.len() as int) =~= whole);
    if total > LINE_LIMIT {
        proof {
            let cut = choose|i: int|
                0 <= i <= whole.len() && #[trigger] utf8_length(whole.take(i)) == LINE_KEEP;
            if open {
                assert(false);
            }
            if cut > kept_chars {
                if cut > kept_chars + 1 {
                    lemma_prefix_bytes_grow(whole, kept_chars + 1, cut);
                }
                assert(false);
            }
            if cut < kept_chars {
                lemma_prefix_bytes_grow(whole, cut, kept_chars);
                assert(false);
            }
        }
        kept.append("...");
        kept
    } else {
        spaced
    }
}

/// Whether [`one_line`] accepts `value`: either its single-spaced form fits,
/// or the cut after [`LINE_KEEP`] bytes falls on a character boundary.
pub fn one_line_accepts(value: &str) -> (accepted: bool)
    ensures
        accepted == one_line_defined(value@),
{
    let spaced = single_spaced_string(value);
    let ghost whole = spaced@;
    let mut total: usize = 0;
    let mut boundary = false;
    for c in it: spaced.as_str().chars()
        invariant
            it.seq() == whole,
            total == if utf8_length(whole.take(it.index())) > LINE_LIMIT + 1 {
                (LINE_LIMIT + 1) as int
            } else {
                utf8_length(whole.take(it.index())) as int
            },
            boundary ==> has_byte_prefix(whole, LINE_KEEP as nat),
            forall|i: int|
                0 <= i <= it.index() && #[trigger] utf8_length(whole.take(i)) == LINE_KEEP
                    ==> boundary,
    {
        let ghost index = it.index();
        proof {
            lemma_take_next(whole, index);
        }
        let width = utf8_width_of(c);
        if total <= LINE_LIMIT {
            total = total + width;
            if total == LINE_KEEP {
                boundary = true;
            }
            if total > LINE_LIMIT + 1 {
                total = LINE_LIMIT + 1;
            }
        }
        proof {
            assert forall|i: int|
                0 <= i <= index + 1 && #[trigger] utf8_length(whole.take(i)) == LINE_KEEP
                implies boundary by {
                if i == index + 1 {
                    assert(utf8_length(whole.take(i)) <= LINE_LIMIT);
                }
            }
            if boundary {
                if total == LINE_KEEP {
                    assert(utf8_length(whole.take(index + 1)) == LINE_KEEP);
                }
            }
        }
    }
    assert(whole.take(whole.len() as int) =~= whole);
    total <= LINE_LIMIT || boundary
}

/// Joining words that hold no white space gives a text whose only white space
/// is the single spaces between them.
proof fn lemma_join_spacing(ws: Seq<Seq<char>>)
    requires
        forall|i: int, j: int|
            0 <= i < ws.len() && 0 <= j < ws[i].len() ==> !is_white_space(#[trigger] ws[i][j]),
    ensures
        forall|k: int|
            0 <= k < join_words(ws).len() ==> #[trigger] join_words(ws)[k] == ' '
                || !is_white_space(join_words(ws)[k]),
    decreases ws.len(),
{
    if ws.len() > 1 {
        let rest = ws.drop_last();
        lemma_join_spacing(rest);
        let joined = join_words(ws);
        let left = join_words(rest);
        let last = ws.last();
        assert forall|k: int| 0 <= k < joined.len() implies #[trigger] joined[k] == ' '
            || !is_white_space(joined[k]) by {
            if k < left.len() {
                assert(joined[k] == left[k]);
            } else if k == left.len() {
                assert(joined[k] == ' ');
            } else {
                assert(joined[k] == last[k - left.len() - 1]);
                assert(!is_white_space(ws[ws.len() - 1][k - left.len() - 1]));
            }
        }
    } else if ws.len() == 1 {
        assert forall|k: int| 0 <= k < join_words(ws).len() implies #[trigger] join_words(ws)[k]
            == ' ' || !is_white_space(join_words(ws)[k]) by {
            assert(!is_white_space(ws[0][k]));
        }
    }
}

/// The bytes of two texts put together add up.
pub proof fn lemma_utf8_length_concat(a: Seq<char>, b: Seq<char>)
    ensures
        utf8_length(a + b) == utf8_length(a) + utf8_length(b),
    decreases b.len(),
{
    if b.len() > 0 {
        assert((a + b).drop_last() =~= a + b.drop_last());
        assert((a + b).last() == b.last());
        lemma_utf8_length_concat(a, b.drop_last());
    } else {
        assert(a + b =~= a);
    }
}

/// What [`one_line`] gives is one line: its only white space is plain spaces,
/// and it takes at most [`LINE_LIMIT`] bytes.
pub proof fn lemma_one_line_is_one_line(s: Seq<char>)
    requires
        one_line_defined(s),
    ensures
        is_one_line(one_line_text(s)),
        utf8_length(one_line_text(s)) <= LINE_LIMIT,
{
    let spaced = single_spaced(s);
    lemma_words_shape(s);
    lemma_join_spacing(words(s));
    if utf8_length(spaced) > LINE_LIMIT {
        let cut = choose|i: int|
            0 <= i <= spaced.len() && #[trigger] utf8_length(spaced.take(i)) == LINE_KEEP as nat;
        let kept = spaced.take(cut);
        reveal_strlit("...");
        let dots = "..."@;
        assert(dots =~= seq!['.', '.', '.']);
        assert(utf8_length(dots) == 3) by {
            reveal_with_fuel(utf8_length, 4);
            assert(dots.drop_last() =~= seq!['.', '.']);
            assert(dots.drop_last().drop_last() =~= seq!['.']);
            assert(dots.drop_last().drop_last().drop_last() =~= Seq::<char>::empty());
        }
        lemma_utf8_length_concat(kept, dots);
        let line = kept + dots;
        assert forall|k: int| 0 <= k < line.len() implies #[trigger] line[k] == ' '
            || !is_white_space(line[k]) by {
            if k < kept.len() {
                assert(line[k] == spaced[k]);
            } else {
                assert(line[k] == '.');
            }
        }
    }
}

/// Whether a text fits on one line: its only white space is plain spaces.
pub open spec fn is_one_line(s: Seq<char>) -> bool {
    forall|k: int| 0 <= k < s.len() ==> #[trigger] s[k] == ' ' || !is_white_space(s[k])
}

/// Two one-line texts put together are one line.
pub proof fn lemma_one_line_concat(a: Seq<char>, b: Seq<char>)
    requires
        is_one_line(a),
        is_one_line(b),
    ensures
        is_one_line(a + b),
{
    assert forall|k: int| 0 <= k < (a + b).len() implies #[trigger] (a + b)[k] == ' '
        || !is_white_space((a + b)[k]) by {
        if k < a.len() {
            assert((a + b)[k] == a[k]);
        } else {
            assert((a + b)[k] == b[k - a.len()]);
        }
    }
}

/// Decimal numbers are one line.
pub proof fn lemma_decimal_is_one_line(n: nat)
    ensures
        is_one_line(decimal_text(n)),
    decreases n,
{
    if n >= 10 {
        lemma_decimal_is_one_line(n / 10);
        lemma_one_line_concat(decimal_text(n / 10), seq![digit_char(n % 10)]);
        assert(decimal_text(n / 10).push(digit_char(n % 10)) =~= decimal_text(n / 10) + seq![
            digit_char(n % 10),
        ]);
    }
}

} // verus!
