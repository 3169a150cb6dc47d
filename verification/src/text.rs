//! Text: what the standard string operations do to the characters that a
//! `String` holds, the line format of the transcript, and the words of a
//! text.

use vstd::prelude::*;

verus! {

/// The texts that a vector of strings holds, in order.
pub open spec fn texts(lines: Seq<String>) -> Seq<Seq<char>> {
    Seq::new(lines.len(), |i: int| lines[i]@)
}

/// Pushing a string onto a vector appends its text to the vector's texts.
pub proof fn lemma_texts_push(lines: Seq<String>, line: String)
    ensures
        texts(lines.push(line)) == texts(lines).push(line@),
{
    assert(texts(lines.push(line)) =~= texts(lines).push(line@));
}

/// `String::push` appends the character to the end of the string.
pub assume_specification[ String::push ](s: &mut String, ch: char)
    ensures
        final(s)@ == old(s)@.push(ch),
;

/// `String::pop` removes the last character and returns it, or returns
/// `None` and leaves the string as it is when the string is empty.
pub assume_specification[ String::pop ](s: &mut String) -> (last: Option<char>)
    ensures
        old(s)@.len() == 0 ==> last.is_none() && final(s)@ == old(s)@,
        old(s)@.len() > 0 ==> last == Some(old(s)@.last()) && final(s)@ == old(s)@.drop_last(),
;

/// `String::clear` removes every character.
pub assume_specification[ String::clear ](s: &mut String)
    ensures
        final(s)@ == Seq::<char>::empty(),
;

/// A transcript line for a chat message: the sender between angle
/// brackets, a space, then the content.
pub open spec fn chat_line(sender: Seq<char>, content: Seq<char>) -> Seq<char> {
    seq!['<'] + sender + seq!['>', ' '] + content
}

/// Formats a chat message for the transcript.
pub fn format_chat_line(sender: &str, content: &str) -> (line: String)
    ensures
        line@ == chat_line(sender@, content@),
{
    proof {
        reveal_strlit("<");
        reveal_strlit("> ");
    }
    let mut line = String::from_str("<");
    assert(line@ =~= seq!['<']);
    line.append(sender);
    line.append("> ");
    assert("> "@ =~= seq!['>', ' ']);
    line.append(content);
    line
}

/// Whether `char::is_whitespace` holds of a character.
pub uninterp spec fn is_whitespace(c: char) -> bool;

/// `char::is_whitespace` tells whether the character is whitespace as the
/// Unicode Character Database defines it (White_Space); the answer depends
/// on the character alone.
pub assume_specification[ char::is_whitespace ](c: char) -> (white: bool)
    ensures
        white == is_whitespace(c),
;

/// No character of the text is whitespace.
pub open spec fn is_solid(s: Seq<char>) -> bool {
    forall|i: int| 0 <= i < s.len() ==> !is_whitespace(#[trigger] s[i])
}

/// The length of the longest prefix of a text that holds no whitespace.
pub open spec fn word_len(s: Seq<char>) -> nat
    decreases s.len(),
{
    if s.len() == 0 || is_whitespace(s[0]) {
        0
    } else {
        1 + word_len(s.drop_first())
    }
}

/// The words of a text, in order: leading whitespace is skipped, the
/// longest run without whitespace is a word, and so on through the rest.
pub open spec fn words(s: Seq<char>) -> Seq<Seq<char>>
    decreases s.len(),
    via words_decreases
{
    if s.len() == 0 {
        Seq::empty()
    } else if is_whitespace(s[0]) {
        words(s.drop_first())
    } else {
        seq![s.take(word_len(s) as int)] + words(s.skip(word_len(s) as int))
    }
}

#[via_fn]
proof fn words_decreases(s: Seq<char>) {
    lemma_word_len_bounds(s);
}

/// A word is no longer than its text, and not empty where the text starts
/// with a character that is no whitespace.
pub proof fn lemma_word_len_bounds(s: Seq<char>)
    ensures
        word_len(s) <= s.len(),
        s.len() > 0 && !is_whitespace(s[0]) ==> word_len(s) >= 1,
    decreases s.len(),
{
    if s.len() > 0 && !is_whitespace(s[0]) {
        lemma_word_len_bounds(s.drop_first());
    }
}

/// The first word is the longest prefix without whitespace: none of its
/// characters is whitespace, and it ends where the text ends or where
/// whitespace stands.
pub proof fn lemma_word_len_is_maximal(s: Seq<char>)
    ensures
        is_solid(s.take(word_len(s) as int)),
        word_len(s) == s.len() || is_whitespace(s[word_len(s) as int]),
    decreases s.len(),
{
    lemma_word_len_bounds(s);
    if s.len() > 0 && !is_whitespace(s[0]) {
        let tail = s.drop_first();
        lemma_word_len_is_maximal(tail);
        lemma_word_len_bounds(tail);
        assert forall|i: int| 0 <= i < word_len(s) implies !is_whitespace(
            #[trigger] s.take(word_len(s) as int)[i],
        ) by {
            if i > 0 {
                assert(s[i] == tail.take(word_len(tail) as int)[i - 1]);
            }
        }
        if word_len(s) < s.len() {
            assert(s[word_len(s) as int] == tail[word_len(tail) as int]);
        }
    }
}

/// Every word holds at least one character and no whitespace.
pub proof fn lemma_words_are_solid(s: Seq<char>)
    ensures
        forall|i: int|
            0 <= i < words(s).len() ==> (#[trigger] words(s)[i]).len() > 0 && is_solid(
                words(s)[i],
            ),
    decreases s.len(),
{
    if s.len() == 0 {
    } else if is_whitespace(s[0]) {
        lemma_words_are_solid(s.drop_first());
        assert(words(s) == words(s.drop_first()));
    } else {
        lemma_word_len_bounds(s);
        lemma_word_len_is_maximal(s);
        let first = s.take(word_len(s) as int);
        let others = words(s.skip(word_len(s) as int));
        lemma_words_are_solid(s.skip(word_len(s) as int));
        assert forall|i: int| 0 <= i < words(s).len() implies (#[trigger] words(s)[i]).len() > 0
            && is_solid(words(s)[i]) by {
            if i == 0 {
                assert(words(s)[0] == first);
            } else {
                assert(words(s)[i] == others[i - 1]);
            }
        }
    }
}

/// The test that keeps what is no whitespace.
pub open spec fn not_whitespace() -> spec_fn(char) -> bool {
    |c: char| !is_whitespace(c)
}

/// A text without whitespace loses nothing when its whitespace is removed.
proof fn lemma_solid_text_is_kept(s: Seq<char>)
    requires
        is_solid(s),
    ensures
        s.filter(not_whitespace()) == s,
    decreases s.len(),
{
    reveal(Seq::filter);
    if s.len() > 0 {
        assert(is_solid(s.drop_last())) by {
            assert forall|i: int| 0 <= i < s.drop_last().len() implies !is_whitespace(
                #[trigger] s.drop_last()[i],
            ) by {
                assert(s.drop_last()[i] == s[i]);
            }
        }
        lemma_solid_text_is_kept(s.drop_last());
        assert(!is_whitespace(s[s.len() - 1]));
        assert(s.drop_last().push(s.last()) =~= s);
    }
}

/// The words, put end to end, are the text without its whitespace: no
/// character is lost, added or moved.
pub proof fn lemma_words_keep_the_characters(s: Seq<char>)
    ensures
        words(s).flatten() == s.filter(not_whitespace()),
    decreases s.len(),
{
    let keep = not_whitespace();
    if s.len() == 0 {
        reveal(Seq::filter);
    } else if is_whitespace(s[0]) {
        let head = seq![s[0]];
        lemma_words_keep_the_characters(s.drop_first());
        assert(head + s.drop_first() =~= s);
        Seq::filter_distributes_over_add(head, s.drop_first(), keep);
        assert(head.filter(keep) =~= Seq::empty()) by {
            reveal_with_fuel(Seq::filter, 2);
        }
        assert(head.filter(keep) + s.drop_first().filter(keep) =~= s.drop_first().filter(keep));
    } else {
        lemma_word_len_bounds(s);
        lemma_word_len_is_maximal(s);
        let n = word_len(s) as int;
        let first = s.take(n);
        let rest = s.skip(n);
        lemma_words_keep_the_characters(rest);
        lemma_solid_text_is_kept(first);
        assert(first + rest =~= s);
        Seq::filter_distributes_over_add(first, rest, keep);
        let all = seq![first] + words(rest);
        assert(all.first() == first);
        assert(all.drop_first() =~= words(rest));
    }
}

/// A run without whitespace that ends the text, or that whitespace
/// follows, is the first word in full.
pub proof fn lemma_word_len_of_run(run: Seq<char>, rest: Seq<char>)
    requires
        is_solid(run),
        rest.len() == 0 || is_whitespace(rest[0]),
    ensures
        word_len(run + rest) == run.len(),
    decreases run.len(),
{
    if run.len() == 0 {
        assert(run + rest =~= rest);
    } else {
        assert((run + rest)[0] == run[0]);
        assert((run + rest).drop_first() =~= run.drop_first() + rest);
        assert(is_solid(run.drop_first())) by {
            assert forall|i: int| 0 <= i < run.drop_first().len() implies !is_whitespace(
                #[trigger] run.drop_first()[i],
            ) by {
                assert(run.drop_first()[i] == run[i + 1]);
            }
        }
        lemma_word_len_of_run(run.drop_first(), rest);
    }
}

/// A run without whitespace, not empty, that ends the text or that
/// whitespace follows, is the first word; the other words are those of what
/// follows it.
pub proof fn lemma_words_after_run(run: Seq<char>, rest: Seq<char>)
    requires
        is_solid(run),
        run.len() > 0,
        rest.len() == 0 || is_whitespace(rest[0]),
    ensures
        words(run + rest) == seq![run] + words(rest),
{
    lemma_word_len_of_run(run, rest);
    let s = run + rest;
    assert(s[0] == run[0]);
    assert(s.take(run.len() as int) =~= run);
    assert(s.skip(run.len() as int) =~= rest);
}

/// Splits a text into its words.
pub fn split_whitespace(text: &str) -> (parts: Vec<String>)
    ensures
        texts(parts@) == words(text@),
{
    let mut parts: Vec<String> = Vec::new();
    let mut current = String::new();
    proof {
        assert(texts(parts@) =~= Seq::empty());
        assert(current@ + text@.skip(0) =~= text@);
        assert(texts(parts@) + words(text@) =~= words(text@));
    }
    for c in it: text.chars()
        invariant
            it.seq() == text@,
            is_solid(current@),
            words(text@) == texts(parts@) + words(current@ + text@.skip(it.index() as int)),
    {
        let ghost i = it.index() as int;
        let ghost rest = text@.skip(i);
        let ghost before = current@;
        proof {
            assert(rest.len() > 0 && rest[0] == c);
            assert(rest.drop_first() =~= text@.skip(i + 1));
        }
        if c.is_whitespace() {
            if !current.as_str().is_empty() {
                proof {
                    lemma_words_after_run(before, rest);
                    lemma_texts_push(parts@, current);
                    assert(texts(parts@).push(before) + words(rest.drop_first()) =~= texts(parts@)
                        + (seq![before] + words(rest)));
                }
                parts.push(current);
                current = String::new();
            } else {
                assert(before + rest =~= rest);
            }
            assert(current@ + text@.skip(i + 1) =~= text@.skip(i + 1));
        } else {
            current.push(c);
            assert(current@ + text@.skip(i + 1) =~= before + rest);
        }
    }
    if !current.as_str().is_empty() {
        proof {
            assert(text@.skip(text@.len() as int) =~= Seq::empty());
            lemma_words_after_run(current@, Seq::empty());
            lemma_texts_push(parts@, current);
            assert(texts(parts@).push(current@) =~= texts(parts@) + (seq![current@] + words(
                Seq::empty(),
            )));
        }
        parts.push(current);
    } else {
        assert(current@ + text@.skip(text@.len() as int) =~= Seq::empty());
        assert(texts(parts@) + words(Seq::empty()) =~= texts(parts@));
    }
    parts
}

} // verus!
