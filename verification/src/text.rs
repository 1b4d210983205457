//! Text as sequences of characters: trimming, splitting on separators,
//! joining, case folding and decimal numerals.

use vstd::prelude::*;

verus! {

/// Whether `c` is white space in the sense of `char::is_whitespace`, that is,
/// whether Unicode classes it as `White_Space`. The set is fixed by the
/// Unicode tables the standard library was built with, so it is named here
/// and not spelled out.
pub uninterp spec fn is_whitespace(c: char) -> bool;

/// The lower-case form of a text as `str::to_lowercase` computes it. The
/// mapping follows the Unicode tables, may change the number of characters
/// and looks at the neighbours of a character, so it is named here and not
/// spelled out.
pub uninterp spec fn lowercase(s: Seq<char>) -> Seq<char>;

/// Calls `char::is_whitespace`; the result is by definition what
/// [`is_whitespace`] names.
#[verifier::external_body]
fn char_is_whitespace(c: char) -> (b: bool)
    ensures
        b == is_whitespace(c),
{
    c.is_whitespace()
}

/// Calls `str::to_lowercase`; the characters of the result are by definition
/// what [`lowercase`] names for the characters of `s`.
#[verifier::external_body]
fn str_to_lowercase(s: &str) -> (folded: String)
    ensures
        folded@ == lowercase(s@),
{
    s.to_lowercase()
}

/// Calls `String::from_iter` on the characters of `chars`: the string made of
/// exactly these characters, in order.
#[verifier::external_body]
pub(crate) fn string_from_chars(chars: &Vec<char>) -> (s: String)
    ensures
        s@ == chars@,
{
    String::from_iter(chars)
}

/// What separates the pieces of a text.
#[derive(Clone, Copy, Debug, PartialEq, Eq)]
pub enum Delimiter {
    /// The line feed character.
    Newline,
    /// Any white space character.
    Whitespace,
}

impl Delimiter {
    /// Whether `c` is a separator of this kind.
    pub open spec fn matches(self, c: char) -> bool {
        match self {
            Delimiter::Newline => c == '\n',
            Delimiter::Whitespace => is_whitespace(c),
        }
    }

    fn is_match(&self, c: char) -> (b: bool)
        ensures
            b == self.matches(c),
    {
        match self {
            Delimiter::Newline => c == '\n',
            Delimiter::Whitespace => char_is_whitespace(c),
        }
    }
}

/// `s` without its leading white space.
pub open spec fn trim_start(s: Seq<char>) -> Seq<char>
    decreases s.len(),
{
    if s.len() > 0 && is_whitespace(s.first()) {
        trim_start(s.drop_first())
    } else {
        s
    }
}

/// `s` without its trailing white space.
pub open spec fn trim_end(s: Seq<char>) -> Seq<char>
    decreases s.len(),
{
    if s.len() > 0 && is_whitespace(s.last()) {
        trim_end(s.drop_last())
    } else {
        s
    }
}

/// `s` without its leading and trailing white space.
pub open spec fn trim(s: Seq<char>) -> Seq<char> {
    trim_end(trim_start(s))
}

/// The pieces of `s` between its separators, empty pieces included: a text
/// with `n` separators has `n + 1` pieces.
pub open spec fn split(s: Seq<char>, d: Delimiter) -> Seq<Seq<char>>
    decreases s.len(),
{
    if s.len() == 0 {
        seq![Seq::<char>::empty()]
    } else {
        let before = split(s.drop_last(), d);
        if d.matches(s.last()) {
            before.push(Seq::<char>::empty())
        } else {
            before.drop_last().push(before.last().push(s.last()))
        }
    }
}

/// The lines of `s`: its pieces between line feeds.
pub open spec fn lines(s: Seq<char>) -> Seq<Seq<char>> {
    split(s, Delimiter::Newline)
}

/// The tokens of `s`: its maximal runs of characters that are not white space.
pub open spec fn tokens(s: Seq<char>) -> Seq<Seq<char>> {
    split(s, Delimiter::Whitespace).filter(|piece: Seq<char>| piece.len() > 0)
}

/// The pieces written one after another with `sep` between neighbours.
pub open spec fn join(pieces: Seq<Seq<char>>, sep: char) -> Seq<char>
    decreases pieces.len(),
{
    if pieces.len() == 0 {
        Seq::<char>::empty()
    } else if pieces.len() == 1 {
        pieces[0]
    } else {
        join(pieces.drop_last(), sep).push(sep) + pieces.last()
    }
}

/// The form in which two answers are compared: trimmed, then lower case.
pub open spec fn normalize(s: Seq<char>) -> Seq<char> {
    lowercase(trim(s))
}

/// The character of a decimal digit.
pub open spec fn digit(d: nat) -> char
    recommends
        d < 10,
{
    if d == 0 {
        '0'
    } else if d == 1 {
        '1'
    } else if d == 2 {
        '2'
    } else if d == 3 {
        '3'
    } else if d == 4 {
        '4'
    } else if d == 5 {
        '5'
    } else if d == 6 {
        '6'
    } else if d == 7 {
        '7'
    } else if d == 8 {
        '8'
    } else {
        '9'
    }
}

/// The decimal numeral of `n`, without leading zeros.
pub open spec fn decimal(n: nat) -> Seq<char>
    decreases n,
{
    if n < 10 {
        seq![digit(n)]
    } else {
        decimal(n / 10).push(digit(n % 10))
    }
}

/// The character sequences of a vector of character vectors.
pub open spec fn pieces(parts: Seq<Vec<char>>) -> Seq<Seq<char>> {
    parts.map_values(|part: Vec<char>| part@)
}

/// Every text splits into at least one piece.
pub proof fn lemma_split_nonempty(s: Seq<char>, d: Delimiter)
    ensures
        split(s, d).len() >= 1,
    decreases s.len(),
{
    if s.len() > 0 {
        lemma_split_nonempty(s.drop_last(), d);
    }
}

/// Trimming at the start takes away a run of white space and nothing else,
/// and what is left does not start with white space. Returns the length of
/// the run.
pub proof fn lemma_trim_start(s: Seq<char>) -> (k: int)
    ensures
        0 <= k <= s.len(),
        trim_start(s) == s.skip(k),
        forall|i: int| 0 <= i < k ==> is_whitespace(#[trigger] s[i]),
        k < s.len() ==> !is_whitespace(s[k]),
    decreases s.len(),
{
    if s.len() > 0 && is_whitespace(s.first()) {
        let rest = lemma_trim_start(s.drop_first());
        assert(s.drop_first().skip(rest) =~= s.skip(rest + 1));
        assert forall|i: int| 0 <= i < rest + 1 implies is_whitespace(#[trigger] s[i]) by {
            if i > 0 {
                assert(s[i] == s.drop_first()[i - 1]);
            }
        }
        if rest + 1 < s.len() {
            assert(s[rest + 1] == s.drop_first()[rest]);
        }
        rest + 1
    } else {
        assert(s.skip(0) =~= s);
        0
    }
}

/// Trimming at the end takes away a run of white space and nothing else, and
/// what is left does not end with white space. Returns the length of what is
/// left.
pub proof fn lemma_trim_end(s: Seq<char>) -> (k: int)
    ensures
        0 <= k <= s.len(),
        trim_end(s) == s.take(k),
        forall|i: int| k <= i < s.len() ==> is_whitespace(#[trigger] s[i]),
        k > 0 ==> !is_whitespace(s[k - 1]),
    decreases s.len(),
{
    if s.len() > 0 && is_whitespace(s.last()) {
        let kept = lemma_trim_end(s.drop_last());
        assert(s.drop_last().take(kept) =~= s.take(kept));
        assert forall|i: int| kept <= i < s.len() implies is_whitespace(#[trigger] s[i]) by {
            if i < s.len() - 1 {
                assert(s[i] == s.drop_last()[i]);
            }
        }
        if kept > 0 {
            assert(s[kept - 1] == s.drop_last()[kept - 1]);
        }
        kept
    } else {
        assert(s.take(s.len() as int) =~= s);
        s.len() as int
    }
}

/// A trimmed text is the part of the text between two runs of white space,
/// and it neither starts nor ends with white space. Returns where the part
/// starts and where it ends.
pub proof fn lemma_trim(s: Seq<char>) -> (bounds: (int, int))
    ensures
        0 <= bounds.0 <= bounds.1 <= s.len(),
        trim(s) == s.subrange(bounds.0, bounds.1),
        forall|i: int| 0 <= i < bounds.0 ==> is_whitespace(#[trigger] s[i]),
        forall|i: int| bounds.1 <= i < s.len() ==> is_whitespace(#[trigger] s[i]),
        trim(s).len() > 0 ==> !is_whitespace(trim(s).first()) && !is_whitespace(trim(s).last()),
{
    let from = lemma_trim_start(s);
    let rest = s.skip(from);
    let kept = lemma_trim_end(rest);
    assert(rest.take(kept) =~= s.subrange(from, from + kept));
    assert forall|i: int| from + kept <= i < s.len() implies is_whitespace(#[trigger] s[i]) by {
        assert(s[i] == rest[i - from]);
    }
    if kept > 0 {
        assert(trim(s).first() == s[from]);
        assert(trim(s).last() == rest[kept - 1]);
    }
    (from, from + kept)
}

/// A text that neither starts nor ends with white space is its own trimmed
/// form.
pub proof fn lemma_trim_of_trimmed(s: Seq<char>)
    requires
        s.len() > 0 ==> !is_whitespace(s.first()) && !is_whitespace(s.last()),
    ensures
        trim(s) == s,
{
}

/// Trimming twice is trimming once.
pub proof fn lemma_trim_idempotent(s: Seq<char>)
    ensures
        trim(trim(s)) == trim(s),
{
    let bounds = lemma_trim(s);
    lemma_trim_of_trimmed(trim(s));
}

/// No piece of a split text holds a separator.
pub proof fn lemma_split_pieces_hold_no_separator(s: Seq<char>, d: Delimiter)
    ensures
        forall|i: int, j: int|
            0 <= i < split(s, d).len() && 0 <= j < split(s, d)[i].len() ==> !d.matches(
                #[trigger] split(s, d)[i][j],
            ),
    decreases s.len(),
{
    if s.len() > 0 {
        lemma_split_pieces_hold_no_separator(s.drop_last(), d);
        lemma_split_nonempty(s.drop_last(), d);
        let before = split(s.drop_last(), d);
        let after = split(s, d);
        assert forall|i: int, j: int|
            0 <= i < after.len() && 0 <= j < after[i].len() implies !d.matches(
            #[trigger] after[i][j],
        ) by {
            if i < before.len() - 1 {
                assert(after[i][j] == before[i][j]);
            } else if !d.matches(s.last()) && j < before.last().len() {
                assert(after[i][j] == before[before.len() - 1][j]);
            }
        }
    }
}

/// No token holds white space.
pub proof fn lemma_tokens_hold_no_whitespace(s: Seq<char>)
    ensures
        forall|i: int, j: int|
            0 <= i < tokens(s).len() && 0 <= j < tokens(s)[i].len() ==> !is_whitespace(
                #[trigger] tokens(s)[i][j],
            ),
{
    let keep = |piece: Seq<char>| piece.len() > 0;
    let all = split(s, Delimiter::Whitespace);
    lemma_split_pieces_hold_no_separator(s, Delimiter::Whitespace);
    assert forall|i: int, j: int|
        0 <= i < tokens(s).len() && 0 <= j < tokens(s)[i].len() implies !is_whitespace(
        #[trigger] tokens(s)[i][j],
    ) by {
        let token = tokens(s)[i];
        assert(all.filter(keep).contains(token));
        all.lemma_filter_contains_rev(keep, token);
        let at = choose|at: int| 0 <= at < all.len() && all[at] == token;
        assert(!Delimiter::Whitespace.matches(all[at][j]));
    }
}

/// No token is empty.
pub proof fn lemma_tokens_not_empty(s: Seq<char>)
    ensures
        forall|i: int| 0 <= i < tokens(s).len() ==> (#[trigger] tokens(s)[i]).len() > 0,
{
    let keep = |piece: Seq<char>| piece.len() > 0;
    let all = split(s, Delimiter::Whitespace);
    assert forall|i: int| 0 <= i < tokens(s).len() implies (#[trigger] tokens(s)[i]).len()
        > 0 by {
        all.lemma_filter_pred(keep, i);
    }
}

/// Pieces that are not empty, joined, start as the first of them starts and
/// end as the last of them ends.
pub proof fn lemma_join_ends(parts: Seq<Seq<char>>, sep: char)
    requires
        parts.len() > 0,
        forall|i: int| 0 <= i < parts.len() ==> (#[trigger] parts[i]).len() > 0,
    ensures
        join(parts, sep).len() > 0,
        join(parts, sep).first() == parts.first().first(),
        join(parts, sep).last() == parts.last().last(),
    decreases parts.len(),
{
    if parts.len() > 1 {
        let before = parts.drop_last();
        assert forall|i: int| 0 <= i < before.len() implies (#[trigger] before[i]).len() > 0 by {
            assert(before[i] == parts[i]);
        }
        lemma_join_ends(before, sep);
        assert(before.first() == parts.first());
    }
}

/// The characters of a string slice, in order.
pub fn chars_of(s: &str) -> (chars: Vec<char>)
    ensures
        chars@ == s@,
{
    let mut chars: Vec<char> = Vec::new();
    for c in it: s.chars()
        invariant
            chars.len() == it.index(),
            it.seq() == s@,
            forall|i: int| 0 <= i < chars.len() ==> chars@[i] == it.seq()[i],
    {
        chars.push(c);
    }
    assert(chars@ =~= s@);
    chars
}

/// The characters of `chars` from `from` up to, not including, `to`.
pub(crate) fn copy_range(chars: &Vec<char>, from: usize, to: usize) -> (out: Vec<char>)
    requires
        from <= to <= chars.len(),
    ensures
        out@ == chars@.subrange(from as int, to as int),
{
    let mut out: Vec<char> = Vec::new();
    let mut i: usize = from;
    while i < to
        invariant
            from <= i <= to <= chars.len(),
            out@ == chars@.subrange(from as int, i as int),
        decreases to - i,
    {
        out.push(chars[i]);
        i += 1;
        assert(out@ =~= chars@.subrange(from as int, i as int));
    }
    out
}

/// `chars` without its leading and trailing white space.
pub(crate) fn trim_chars(chars: &Vec<char>) -> (out: Vec<char>)
    ensures
        out@ == trim(chars@),
{
    let n = chars.len();
    let mut start: usize = 0;
    assert(chars@.skip(0) =~= chars@);
    while start < n && char_is_whitespace(chars[start])
        invariant
            start <= n,
            n == chars.len(),
            trim_start(chars@) == trim_start(chars@.skip(start as int)),
        decreases n - start,
    {
        assert(chars@.skip(start as int).drop_first() =~= chars@.skip(start + 1));
        start += 1;
    }
    assert(trim_start(chars@) == chars@.skip(start as int));
    let mut end: usize = n;
    assert(chars@.subrange(start as int, n as int) =~= chars@.skip(start as int));
    while end > start && char_is_whitespace(chars[end - 1])
        invariant
            start <= end <= n,
            n == chars.len(),
            trim(chars@) == trim_end(chars@.subrange(start as int, end as int)),
        decreases end,
    {
        assert(chars@.subrange(start as int, end as int).drop_last() =~= chars@.subrange(
            start as int,
            end - 1,
        ));
        end -= 1;
    }
    copy_range(chars, start, end)
}

/// The pieces of `chars` between its separators; with `keep_empty` unset, the
/// empty pieces are left out.
pub(crate) fn split_chars(chars: &Vec<char>, d: Delimiter, keep_empty: bool) -> (parts: Vec<
    Vec<char>,
>)
    ensures
        keep_empty ==> pieces(parts@) == split(chars@, d),
        !keep_empty ==> pieces(parts@) == split(chars@, d).filter(
            |piece: Seq<char>| piece.len() > 0,
        ),
{
    let ghost keep = |piece: Seq<char>| piece.len() > 0;
    let mut parts: Vec<Vec<char>> = Vec::new();
    let mut current: Vec<char> = Vec::new();
    let mut i: usize = 0;
    proof {
        assert(chars@.take(0) =~= Seq::<char>::empty());
        assert(split(chars@.take(0), d).drop_last() =~= Seq::<Seq<char>>::empty());
        assert(pieces(parts@) =~= Seq::<Seq<char>>::empty());
        assert(Seq::<Seq<char>>::empty().filter(keep) =~= Seq::<Seq<char>>::empty()) by {
            reveal(Seq::filter);
        }
    }
    while i < chars.len()
        invariant
            i <= chars.len(),
            keep == |piece: Seq<char>| piece.len() > 0,
            current@ == split(chars@.take(i as int), d).last(),
            keep_empty ==> pieces(parts@) == split(chars@.take(i as int), d).drop_last(),
            !keep_empty ==> pieces(parts@) == split(chars@.take(i as int), d).drop_last().filter(
                keep,
            ),
        decreases chars.len() - i,
    {
        let c = chars[i];
        let ghost before = split(chars@.take(i as int), d);
        proof {
            lemma_split_nonempty(chars@.take(i as int), d);
            assert(chars@.take(i + 1).drop_last() =~= chars@.take(i as int));
            assert(chars@.take(i + 1).last() == c);
            assert(before.drop_last().push(before.last()) =~= before);
        }
        if d.is_match(c) {
            let ghost old_parts = parts@;
            if keep_empty || current.len() > 0 {
                parts.push(current);
                proof {
                    assert(pieces(parts@) =~= pieces(old_parts).push(current@));
                }
            }
            proof {
                let after = split(chars@.take(i + 1), d);
                assert(after == before.push(Seq::<char>::empty()));
                assert(after.drop_last() =~= before);
                Seq::lemma_filter_push(before.drop_last(), before.last(), keep);
            }
            current = Vec::new();
        } else {
            current.push(c);
            proof {
                let after = split(chars@.take(i + 1), d);
                assert(after == before.drop_last().push(before.last().push(c)));
                assert(after.drop_last() =~= before.drop_last());
            }
        }
        i += 1;
    }
    proof {
        assert(chars@.take(i as int) =~= chars@);
        let all = split(chars@, d);
        lemma_split_nonempty(chars@, d);
        assert(all.drop_last().push(all.last()) =~= all);
        Seq::lemma_filter_push(all.drop_last(), all.last(), keep);
    }
    let ghost old_parts = parts@;
    if keep_empty || current.len() > 0 {
        parts.push(current);
        proof {
            assert(pieces(parts@) =~= pieces(old_parts).push(current@));
        }
    }
    parts
}

/// The tokens of `chars`: its maximal runs of characters that are not white
/// space.
pub(crate) fn token_chars(chars: &Vec<char>) -> (parts: Vec<Vec<char>>)
    ensures
        pieces(parts@) == tokens(chars@),
{
    split_chars(chars, Delimiter::Whitespace, false)
}

/// The pieces from index `from` on, written one after another with `sep`
/// between neighbours.
pub(crate) fn join_chars(parts: &Vec<Vec<char>>, from: usize, sep: char) -> (out: Vec<char>)
    requires
        from <= parts.len(),
    ensures
        out@ == join(pieces(parts@).skip(from as int), sep),
{
    let ghost rest = pieces(parts@).skip(from as int);
    let mut out: Vec<char> = Vec::new();
    let mut i: usize = from;
    proof {
        assert(rest.take(0) =~= Seq::<Seq<char>>::empty());
    }
    while i < parts.len()
        invariant
            from <= i <= parts.len(),
            rest == pieces(parts@).skip(from as int),
            out@ == join(rest.take(i - from), sep),
        decreases parts.len() - i,
    {
        let part = &parts[i];
        proof {
            let upto = rest.take(i - from + 1);
            assert(upto.drop_last() =~= rest.take(i - from));
            assert(upto.last() == part@);
        }
        if i > from {
            out.push(sep);
        }
        let ghost start = out@;
        let mut j: usize = 0;
        while j < part.len()
            invariant
                j <= part.len(),
                out@ == start + part@.take(j as int),
            decreases part.len() - j,
        {
            out.push(part[j]);
            j += 1;
            assert(out@ =~= start + part@.take(j as int));
        }
        proof {
            assert(part@.take(j as int) =~= part@);
            assert(Seq::<char>::empty() + part@ =~= part@);
        }
        i += 1;
    }
    proof {
        assert(rest.take(i - from) =~= rest);
    }
    out
}

/// `text` without its leading and trailing white space.
pub fn trimmed(text: &str) -> (out: String)
    ensures
        out@ == trim(text@),
{
    let chars = chars_of(text);
    let kept = trim_chars(&chars);
    string_from_chars(&kept)
}

/// `text` in the form in which answers are compared: trimmed, then lower
/// case.
pub fn normalized(text: &str) -> (out: String)
    ensures
        out@ == normalize(text@),
{
    let kept = trimmed(text);
    str_to_lowercase(kept.as_str())
}

/// Whether two texts are the same answer: equal once both are trimmed and in
/// lower case.
pub fn same_answer(given: &str, expected: &str) -> (same: bool)
    ensures
        same == (normalize(given@) == normalize(expected@)),
{
    let a = normalized(given);
    let b = normalized(expected);
    a == b
}

fn digit_of(d: u8) -> (c: char)
    requires
        d < 10,
    ensures
        c == digit(d as nat),
{
    match d {
        0 => '0',
        1 => '1',
        2 => '2',
        3 => '3',
        4 => '4',
        5 => '5',
        6 => '6',
        7 => '7',
        8 => '8',
        _ => '9',
    }
}

/// The decimal numeral of `n`.
pub fn decimal_text(n: u8) -> (out: String)
    ensures
        out@ == decimal(n as nat),
{
    let mut chars: Vec<char> = Vec::new();
    if n >= 100 {
        chars.push(digit_of(n / 100));
    }
    if n >= 10 {
        chars.push(digit_of((n / 10) % 10));
    }
    chars.push(digit_of(n % 10));
    proof {
        reveal_with_fuel(decimal, 3);
        assert(chars@ =~= decimal(n as nat));
    }
    string_from_chars(&chars)
}

} // verus!
