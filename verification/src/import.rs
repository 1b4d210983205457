//! Reading a word list from plain text, one entry per line: the foreign word,
//! white space, then the translation, which may have several words.

use vstd::prelude::*;
use crate::text::{
    chars_of, is_whitespace, join, join_chars, lemma_join_ends, lemma_tokens_hold_no_whitespace,
    lemma_tokens_not_empty, lemma_trim_of_trimmed, lines, pieces, split_chars,
    string_from_chars, token_chars, tokens, trim, trim_chars, Delimiter,
};
use crate::word::{all_valid, typed_word, word_views, Word, WordView, MIN_LEVEL};

verus! {

/// What one line of a word list amounts to.
pub enum LineView {
    /// A blank line or a comment: not an entry at all.
    Skipped,
    /// An entry without a translation.
    Rejected,
    /// An entry, with the word it gives.
    Accepted(WordView),
}

/// What a line amounts to: blank lines and lines whose first character after
/// the leading white space is `#` are passed over; a line with a single token
/// is rejected; otherwise the first token is the foreign word and the others,
/// with one space between neighbours, are the translation.
pub open spec fn classify(line: Seq<char>) -> LineView {
    entry(trim(line), tokens(trim(line)))
}

/// What a line amounts to whose text, once trimmed, is `text` and has the
/// tokens `parts`.
pub open spec fn entry(text: Seq<char>, parts: Seq<Seq<char>>) -> LineView {
    if text.len() == 0 || text.first() == '#' {
        LineView::Skipped
    } else if parts.len() < 2 {
        LineView::Rejected
    } else {
        LineView::Accepted(
            WordView {
                foreign: parts[0],
                translation: join(parts.skip(1), ' '),
                level: MIN_LEVEL as nat,
            },
        )
    }
}

/// What a word list amounts to.
pub struct ImportView {
    /// The words of the accepted lines, in the order of the lines.
    pub words: Seq<WordView>,
    /// The number of accepted lines.
    pub accepted: nat,
    /// The number of rejected lines.
    pub rejected: nat,
}

/// What the given lines amount to, each line judged by itself.
pub open spec fn import_lines(all: Seq<Seq<char>>) -> ImportView
    decreases all.len(),
{
    if all.len() == 0 {
        ImportView { words: Seq::empty(), accepted: 0, rejected: 0 }
    } else {
        let before = import_lines(all.drop_last());
        match classify(all.last()) {
            LineView::Skipped => before,
            LineView::Rejected => ImportView { rejected: before.rejected + 1, ..before },
            LineView::Accepted(word) => ImportView {
                words: before.words.push(word),
                accepted: before.accepted + 1,
                rejected: before.rejected,
            },
        }
    }
}

/// What the text of a word list amounts to.
pub open spec fn import(content: Seq<char>) -> ImportView {
    import_lines(lines(content))
}

/// Each accepted line gives one word, and no line is counted twice.
pub proof fn lemma_import_counts(all: Seq<Seq<char>>)
    ensures
        import_lines(all).accepted == import_lines(all).words.len(),
        import_lines(all).accepted + import_lines(all).rejected <= all.len(),
    decreases all.len(),
{
    if all.len() > 0 {
        lemma_import_counts(all.drop_last());
    }
}

/// The word of an accepted line is valid and at the lowest level. Its
/// foreign text is the first token of the line, which holds no white space;
/// neither of its texts starts or ends with white space, so that trimming
/// leaves both as they are.
pub proof fn lemma_accepted_word_valid(line: Seq<char>)
    ensures
        classify(line) matches LineView::Accepted(word) ==> {
            &&& word.valid()
            &&& word.level == MIN_LEVEL
            &&& word.foreign == tokens(trim(line))[0]
            &&& forall|j: int|
                0 <= j < word.foreign.len() ==> !is_whitespace(#[trigger] word.foreign[j])
            &&& trim(word.foreign) == word.foreign
            &&& trim(word.translation) == word.translation
        },
{
    let parts = tokens(trim(line));
    if classify(line) is Accepted {
        lemma_tokens_not_empty(trim(line));
        lemma_tokens_hold_no_whitespace(trim(line));
        let foreign = parts[0];
        let rest = parts.skip(1);
        assert(foreign.len() > 0);
        assert(!is_whitespace(foreign[0]) && !is_whitespace(foreign[foreign.len() - 1]));
        lemma_trim_of_trimmed(foreign);
        assert forall|i: int| 0 <= i < rest.len() implies (#[trigger] rest[i]).len() > 0 by {
            assert(rest[i] == parts[i + 1]);
        }
        lemma_join_ends(rest, ' ');
        assert(rest.first() == parts[1]);
        assert(rest.last() == parts[parts.len() - 1]);
        assert(!is_whitespace(parts[1][0]));
        let last = parts[parts.len() - 1];
        assert(!is_whitespace(last[last.len() - 1]));
        lemma_trim_of_trimmed(join(rest, ' '));
    }
}

/// Every word that a word list gives is valid and at the lowest level, and
/// is the word that its own two texts make when typed.
pub proof fn lemma_import_words_valid(all: Seq<Seq<char>>)
    ensures
        all_valid(import_lines(all).words),
        forall|i: int|
            0 <= i < import_lines(all).words.len() ==> (#[trigger] import_lines(all).words[i])
                == typed_word(
                import_lines(all).words[i].foreign,
                import_lines(all).words[i].translation,
            ),
    decreases all.len(),
{
    if all.len() > 0 {
        lemma_import_words_valid(all.drop_last());
        lemma_accepted_word_valid(all.last());
    }
}

/// What one line of a word list amounts to.
#[derive(Clone, Debug, PartialEq, Eq)]
pub enum Line {
    /// A blank line or a comment: not an entry at all.
    Skipped,
    /// An entry without a translation.
    Rejected,
    /// An entry, with the word it gives.
    Accepted(Word),
}

impl View for Line {
    type V = LineView;

    open spec fn view(&self) -> LineView {
        match self {
            Line::Skipped => LineView::Skipped,
            Line::Rejected => LineView::Rejected,
            Line::Accepted(word) => LineView::Accepted(word@),
        }
    }
}

/// The outcome of reading a word list.
#[derive(Clone, Debug, PartialEq, Eq)]
pub struct Import {
    /// The words of the accepted lines, in the order of the lines.
    pub words: Vec<Word>,
    /// The number of accepted lines.
    pub accepted: usize,
    /// The number of rejected lines.
    pub rejected: usize,
}

impl View for Import {
    type V = ImportView;

    open spec fn view(&self) -> ImportView {
        ImportView {
            words: word_views(self.words@),
            accepted: self.accepted as nat,
            rejected: self.rejected as nat,
        }
    }
}

/// What a line amounts to whose characters, once trimmed, are `text` and
/// whose tokens are `parts`: nothing when `text` is empty or starts a
/// comment, a rejected entry with fewer than two tokens, and otherwise the
/// word with the first token as its foreign text and the others, a space
/// between neighbours, as its translation.
pub fn entry_of(text: &Vec<char>, parts: &Vec<Vec<char>>) -> (outcome: Line)
    ensures
        outcome@ == entry(text@, pieces(parts@)),
{
    if text.len() == 0 || text[0] == '#' {
        return Line::Skipped;
    }
    if parts.len() < 2 {
        return Line::Rejected;
    }
    let foreign = string_from_chars(&parts[0]);
    let translation = string_from_chars(&join_chars(parts, 1, ' '));
    Line::Accepted(Word::new(foreign, translation))
}

fn classify_chars(line: &Vec<char>) -> (outcome: Line)
    ensures
        outcome@ == classify(line@),
{
    let text = trim_chars(line);
    let parts = token_chars(&text);
    entry_of(&text, &parts)
}

/// Judges one line of a word list.
pub fn parse_line(line: &str) -> (outcome: Line)
    ensures
        outcome@ == classify(line@),
{
    let chars = chars_of(line);
    classify_chars(&chars)
}

/// Reads a word list. Every text is a word list: a line that is no entry is
/// counted or passed over, and never stops the reading.
pub fn parse_import(content: &str) -> (outcome: Import)
    ensures
        outcome@ == import(content@),
        outcome.accepted == outcome.words.len(),
{
    let chars = chars_of(content);
    let all = split_chars(&chars, Delimiter::Newline, true);
    let mut words: Vec<Word> = Vec::new();
    let mut accepted: usize = 0;
    let mut rejected: usize = 0;
    let mut i: usize = 0;
    proof {
        assert(pieces(all@).take(0) =~= Seq::<Seq<char>>::empty());
        assert(word_views(words@) =~= Seq::<WordView>::empty());
    }
    while i < all.len()
        invariant
            i <= all.len(),
            accepted + rejected <= i,
            (Import { words, accepted, rejected })@ == import_lines(pieces(all@).take(i as int)),
        decreases all.len() - i,
    {
        let ghost before = words@;
        proof {
            let upto = pieces(all@).take(i + 1);
            assert(upto.drop_last() =~= pieces(all@).take(i as int));
            assert(upto.last() == all@[i as int]@);
        }
        match classify_chars(&all[i]) {
            Line::Skipped => {},
            Line::Rejected => {
                rejected += 1;
            },
            Line::Accepted(word) => {
                words.push(word);
                accepted += 1;
                proof {
                    assert(word_views(words@) =~= word_views(before).push(word@));
                }
            },
        }
        i += 1;
    }
    proof {
        assert(pieces(all@).take(i as int) =~= pieces(all@));
        lemma_import_counts(pieces(all@));
    }
    Import { words, accepted, rejected }
}

} // verus!
