use vstd::prelude::*;

verus! {

/// Unicode `White_Space`: the characters that separate the words of a command.
pub open spec fn is_whitespace_char(c: char) -> bool {
    ('\u{9}' <= c && c <= '\u{d}') || c == ' ' || c == '\u{85}' || c == '\u{a0}'
        || c == '\u{1680}' || ('\u{2000}' <= c && c <= '\u{200a}') || c == '\u{2028}'
        || c == '\u{2029}' || c == '\u{202f}' || c == '\u{205f}' || c == '\u{3000}'
}

/// Length of the run of non-whitespace characters that `s` starts with.
pub open spec fn word_len(s: Seq<char>) -> nat
    decreases s.len(),
{
    if s.len() == 0 || is_whitespace_char(s[0]) {
        0
    } else {
        1 + word_len(s.drop_first())
    }
}

/// The maximal runs of non-whitespace characters of `s`, in order.
pub open spec fn words(s: Seq<char>) -> Seq<Seq<char>>
    decreases s.len(),
    via words_decreases
{
    if s.len() == 0 {
        seq![]
    } else if is_whitespace_char(s[0]) {
        words(s.drop_first())
    } else {
        let n = word_len(s);
        seq![s.take(n as int)] + words(s.skip(n as int))
    }
}

proof fn lemma_word_len(s: Seq<char>)
    ensures
        word_len(s) <= s.len(),
        s.len() > 0 && !is_whitespace_char(s[0]) ==> word_len(s) > 0,
    decreases s.len(),
{
    if s.len() > 0 && !is_whitespace_char(s[0]) {
        lemma_word_len(s.drop_first());
    }
}

#[via_fn]
proof fn words_decreases(s: Seq<char>) {
    lemma_word_len(s);
}

pub open spec fn is_digit(c: char) -> bool {
    '0' <= c && c <= '9'
}

/// Decimal value of a run of digits.
pub open spec fn digits_value(d: Seq<char>) -> nat
    decreases d.len(),
{
    if d.len() == 0 {
        0
    } else {
        10 * digits_value(d.drop_last()) + ((d.last() as nat) - ('0' as nat)) as nat
    }
}

/// The digits of a word, after an optional leading `+`.
pub open spec fn unsigned_digits(w: Seq<char>) -> Seq<char> {
    if w.len() > 0 && w[0] == '+' {
        w.drop_first()
    } else {
        w
    }
}

/// The value of `w` read as an 8-bit unsigned decimal: an optional `+`, then
/// at least one digit, with a value of at most 255 (leading zeros allowed).
pub open spec fn u8_literal(w: Seq<char>) -> Option<u8> {
    let d = unsigned_digits(w);
    if d.len() > 0 && (forall|i: int| 0 <= i < d.len() ==> is_digit(#[trigger] d[i]))
        && digits_value(d) <= 255 {
        Some(digits_value(d) as u8)
    } else {
        None
    }
}

/// The values of the words of `s` that read as 8-bit unsigned integers; the
/// other words are left out.
pub open spec fn byte_values(s: Seq<char>) -> Seq<u8> {
    words(s).filter_map(|w: Seq<char>| u8_literal(w))
}

/// A color given as exactly three numbers: red, green, blue.
pub open spec fn color_triple(s: Seq<char>) -> Option<(u8, u8, u8)> {
    let v = byte_values(s);
    if v.len() == 3 {
        Some((v[0], v[1], v[2]))
    } else {
        None
    }
}

pub fn is_whitespace(c: char) -> (r: bool)
    ensures
        r == is_whitespace_char(c),
{
    ('\u{9}' <= c && c <= '\u{d}') || c == ' ' || c == '\u{85}' || c == '\u{a0}' || c
        == '\u{1680}' || ('\u{2000}' <= c && c <= '\u{200a}') || c == '\u{2028}' || c
        == '\u{2029}' || c == '\u{202f}' || c == '\u{205f}' || c == '\u{3000}'
}

/// The characters of `s`, in order.
pub fn chars_of(s: &str) -> (r: Vec<char>)
    ensures
        r@ == s@,
{
    let mut r: Vec<char> = Vec::new();
    for c in it: s.chars()
        invariant
            r@ == it.seq().take(it.index() as int),
    {
        r.push(c);
    }
    r
}

proof fn lemma_words_skip_space(s: Seq<char>, i: int)
    requires
        0 <= i < s.len(),
        is_whitespace_char(s[i]),
    ensures
        words(s.skip(i)) == words(s.skip(i + 1)),
{
    assert(s.skip(i).drop_first() =~= s.skip(i + 1));
}

proof fn lemma_word_len_run(s: Seq<char>, i: int, j: int)
    requires
        0 <= i <= j <= s.len(),
        forall|k: int| i <= k < j ==> !is_whitespace_char(#[trigger] s[k]),
        j == s.len() || is_whitespace_char(s[j]),
    ensures
        word_len(s.skip(i)) == j - i,
    decreases j - i,
{
    if i < j {
        lemma_word_len_run(s, i + 1, j);
        assert(s.skip(i).drop_first() =~= s.skip(i + 1));
    }
}

proof fn lemma_words_skip_word(s: Seq<char>, i: int, j: int)
    requires
        0 <= i < j <= s.len(),
        forall|k: int| i <= k < j ==> !is_whitespace_char(#[trigger] s[k]),
        j == s.len() || is_whitespace_char(s[j]),
    ensures
        words(s.skip(i)) == seq![s.subrange(i, j)] + words(s.skip(j)),
{
    lemma_word_len_run(s, i, j);
    assert(s.skip(i).take(j - i) =~= s.subrange(i, j));
    assert(s.skip(i).skip(j - i) =~= s.skip(j));
}

proof fn lemma_filter_map_prepend(w: Seq<char>, t: Seq<Seq<char>>)
    ensures
        (seq![w] + t).filter_map(|x: Seq<char>| u8_literal(x)) == (match u8_literal(w) {
            Some(v) => seq![v],
            None => Seq::<u8>::empty(),
        }) + t.filter_map(|x: Seq<char>| u8_literal(x)),
    decreases t.len(),
{
    let f = |x: Seq<char>| u8_literal(x);
    let head = match u8_literal(w) {
        Some(v) => seq![v],
        None => Seq::<u8>::empty(),
    };
    if t.len() == 0 {
        assert(seq![w] + t =~= seq![w]);
        assert(seq![w].drop_last() =~= Seq::<Seq<char>>::empty());
        assert(Seq::<Seq<char>>::empty().filter_map(f) =~= Seq::<u8>::empty());
        assert(seq![w].filter_map(f) =~= head);
        assert(head + t.filter_map(f) =~= head);
    } else {
        lemma_filter_map_prepend(w, t.drop_last());
        assert((seq![w] + t).drop_last() =~= seq![w] + t.drop_last());
        assert((seq![w] + t).last() == t.last());
        match u8_literal(t.last()) {
            Some(v) => {
                assert(head + t.filter_map(f) =~= head + t.drop_last().filter_map(f) + seq![v]);
            },
            None => {},
        }
    }
}

/// One more digit: the value grows tenfold plus the digit, and a value of
/// 256 or more stays so.
proof fn lemma_digits_step(d: Seq<char>, k: int)
    requires
        0 <= k < d.len(),
        is_digit(d[k]),
    ensures
        digits_value(d.take(k + 1)) == 10 * digits_value(d.take(k)) + ((d[k] as nat) - ('0' as nat)),
        digits_value(d.take(k)) >= 256 ==> digits_value(d.take(k + 1)) >= 256,
{
    assert(d.take(k + 1).drop_last() =~= d.take(k));
}

/// Reads the characters `chars[from..to]` as an 8-bit unsigned decimal.
fn read_u8(chars: &Vec<char>, from: usize, to: usize) -> (r: Option<u8>)
    requires
        from <= to <= chars.len(),
    ensures
        r == u8_literal(chars@.subrange(from as int, to as int)),
{
    let ghost w = chars@.subrange(from as int, to as int);
    let mut start: usize = from;
    if from < to && chars[from] == '+' {
        start = from + 1;
    }
    let ghost d = chars@.subrange(start as int, to as int);
    assert(d =~= unsigned_digits(w));
    if start == to {
        return None;
    }
    let mut acc: u32 = 0;
    let mut k: usize = start;
    while k < to
        invariant
            start <= k <= to <= chars.len(),
            d == chars@.subrange(start as int, to as int),
            w == chars@.subrange(from as int, to as int),
            d == unsigned_digits(w),
            d.len() > 0,
            forall|i: int| 0 <= i < k - start ==> is_digit(#[trigger] d[i]),
            acc as nat == if digits_value(d.take(k - start)) < 256 {
                digits_value(d.take(k - start))
            } else {
                256
            },
        decreases to - k,
    {
        let c = chars[k];
        if !('0' <= c && c <= '9') {
            assert(!is_digit(d[k - start]));
            return None;
        }
        proof {
            lemma_digits_step(d, k - start);
        }
        let digit: u32 = (c as u32) - ('0' as u32);
        acc = if acc >= 256 {
            256
        } else {
            let next: u32 = acc * 10 + digit;
            if next > 256 {
                256
            } else {
                next
            }
        };
        k = k + 1;
    }
    assert(d.take(to - start) =~= d);
    if acc <= 255 {
        Some(acc as u8)
    } else {
        None
    }
}

/// The values of the words of `chars` that read as 8-bit unsigned integers.
pub fn byte_values_of(chars: &Vec<char>) -> (r: Vec<u8>)
    ensures
        r@ == byte_values(chars@),
{
    let ghost s = chars@;
    let mut r: Vec<u8> = Vec::new();
    let mut i: usize = 0;
    assert(s.skip(0) =~= s);
    while i < chars.len()
        invariant
            i <= chars.len(),
            s == chars@,
            r@ + byte_values(s.skip(i as int)) == byte_values(s),
        decreases chars.len() - i,
    {
        if is_whitespace(chars[i]) {
            proof {
                lemma_words_skip_space(s, i as int);
            }
            i = i + 1;
        } else {
            let mut j: usize = i + 1;
            while j < chars.len() && !is_whitespace(chars[j])
                invariant
                    i < j <= chars.len(),
                    s == chars@,
                    forall|k: int| i <= k < j ==> !is_whitespace_char(#[trigger] s[k]),
                decreases chars.len() - j,
            {
                j = j + 1;
            }
            let value = read_u8(chars, i, j);
            proof {
                lemma_words_skip_word(s, i as int, j as int);
                lemma_filter_map_prepend(s.subrange(i as int, j as int), words(s.skip(j as int)));
            }
            match value {
                Some(v) => {
                    r.push(v);
                },
                None => {},
            }
            proof {
                assert(r@ + byte_values(s.skip(j as int)) =~= byte_values(s));
            }
            i = j;
        }
    }
    proof {
        assert(s.skip(i as int) =~= Seq::<char>::empty());
        assert(r@ =~= byte_values(s));
    }
    r
}

} // verus!
