//! What holds of prompts in every text.

use vstd::prelude::*;

use crate::prompt::{prompt_at_end, prompt_mark, trim_end, white_space};

verus! {

/// The text is white space from end to end.
pub open spec fn blank(text: Seq<char>) -> bool {
    forall|i: int| 0 <= i < text.len() ==> white_space(#[trigger] text[i])
}

/// The text, cut after each newline.
pub open spec fn pieces(text: Seq<char>) -> Seq<Seq<char>>
    decreases text.len(),
{
    if text.len() == 0 {
        Seq::empty()
    } else {
        let before = pieces(text.drop_last());
        if text.len() == 1 || text.drop_last().last() == '\n' {
            before.push(seq![text.last()])
        } else {
            before.drop_last().push(before.last().push(text.last()))
        }
    }
}

/// A piece without its line ending: a newline, or a carriage return and a
/// newline.
pub open spec fn without_ending(piece: Seq<char>) -> Seq<char> {
    if piece.len() > 0 && piece.last() == '\n' {
        let line = piece.drop_last();
        if line.len() > 0 && line.last() == '\r' {
            line.drop_last()
        } else {
            line
        }
    } else {
        piece
    }
}

/// The lines of a text.
pub open spec fn lines(text: Seq<char>) -> Seq<Seq<char>> {
    pieces(text).map_values(|piece: Seq<char>| without_ending(piece))
}

/// The line at an index is the last one that is not blank.
pub open spec fn last_visible_line(lines: Seq<Seq<char>>, i: int) -> bool {
    &&& 0 <= i < lines.len()
    &&& !blank(lines[i])
    &&& forall|j: int| i < j < lines.len() ==> blank(#[trigger] lines[j])
}

/// Nothing is left of a text without its trailing white space if and only if
/// the text is blank; what is left does not end in white space, and was
/// followed by white space alone.
pub proof fn trim_end_leaves(text: Seq<char>)
    ensures
        trim_end(text).len() == 0 <==> blank(text),
        trim_end(text).len() <= text.len(),
        trim_end(text) == text.take(trim_end(text).len() as int),
        trim_end(text).len() > 0 ==> !white_space(trim_end(text).last()),
        blank(text.skip(trim_end(text).len() as int)),
    decreases text.len(),
{
    if text.len() > 0 && white_space(text.last()) {
        let before = text.drop_last();
        trim_end_leaves(before);
        let n = trim_end(text).len() as int;
        assert(before.take(n) =~= text.take(n));
        assert forall|i: int| 0 <= i < text.skip(n).len() implies white_space(
            #[trigger] text.skip(n)[i],
        ) by {
            if i < before.skip(n).len() {
                assert(before.skip(n)[i] == text.skip(n)[i]);
            }
        }
        if blank(before) {
            assert forall|i: int| 0 <= i < text.len() implies white_space(#[trigger] text[i]) by {
                if i < before.len() {
                    assert(before[i] == text[i]);
                }
            }
        }
        if blank(text) {
            assert forall|i: int| 0 <= i < before.len() implies white_space(
                #[trigger] before[i],
            ) by {
                assert(before[i] == text[i]);
            }
        }
    } else {
        assert(text.take(text.len() as int) =~= text);
        if text.len() > 0 {
            assert(!white_space(text[text.len() - 1]));
        }
    }
}

/// White space at the end of a text, blank lines included, is trimmed away.
pub proof fn trim_end_of_trailing_blank(text: Seq<char>, space: Seq<char>)
    requires
        blank(space),
    ensures
        trim_end(text + space) == trim_end(text),
    decreases space.len(),
{
    if space.len() == 0 {
        assert(text + space =~= text);
    } else {
        assert((text + space).drop_last() =~= text + space.drop_last());
        assert((text + space).last() == space[space.len() - 1]);
        assert forall|i: int| 0 <= i < space.drop_last().len() implies white_space(
            #[trigger] space.drop_last()[i],
        ) by {
            assert(space.drop_last()[i] == space[i]);
        }
        trim_end_of_trailing_blank(text, space.drop_last());
    }
}

/// What comes before a text that is not blank is left when the two are trimmed.
pub proof fn trim_end_of_visible_end(before: Seq<char>, text: Seq<char>)
    requires
        !blank(text),
    ensures
        trim_end(before + text) == before + trim_end(text),
    decreases text.len(),
{
    if white_space(text.last()) {
        trim_end_leaves(text);
        trim_end_leaves(text.drop_last());
        assert((before + text).drop_last() =~= before + text.drop_last());
        assert((before + text).last() == text.last());
        trim_end_of_visible_end(before, text.drop_last());
    } else {
        assert((before + text).last() == text.last());
    }
}

/// White space after a prompt, blank lines included, does not hide it, and
/// does not make one.
pub proof fn trailing_blank_lines_do_not_matter(text: Seq<char>, space: Seq<char>)
    requires
        blank(space),
    ensures
        prompt_at_end(text + space) == prompt_at_end(text),
{
    trim_end_of_trailing_blank(text, space);
}

/// What comes before the last visible part of a text does not matter.
pub proof fn earlier_output_does_not_matter(before: Seq<char>, text: Seq<char>)
    requires
        !blank(text),
    ensures
        prompt_at_end(before + text) == prompt_at_end(text),
{
    trim_end_of_visible_end(before, text);
    trim_end_leaves(text);
}

/// A blank text shows no prompt.
pub proof fn blank_text_shows_no_prompt(text: Seq<char>)
    requires
        blank(text),
    ensures
        !prompt_at_end(text),
{
    trim_end_leaves(text);
}

/// A text that ends in a prompt mark, with or without white space after it,
/// shows a prompt; one that ends in another visible character shows none.
pub proof fn last_visible_character_decides(before: Seq<char>, c: char, space: Seq<char>)
    requires
        !white_space(c),
        blank(space),
    ensures
        prompt_at_end(before.push(c) + space) == prompt_mark(c),
{
    trim_end_of_trailing_blank(before.push(c), space);
}

/// A text shows a prompt if and only if one of the seven marks stands in it with
/// nothing but white space after it.
pub proof fn prompt_is_a_mark_followed_by_white_space(text: Seq<char>)
    ensures
        prompt_at_end(text) <==> exists|i: int|
            #![trigger text[i]]
            {
                &&& 0 <= i < text.len()
                &&& text[i] == '$' || text[i] == '%' || text[i] == '#' || text[i] == '>' || text[i]
                    == '❯' || text[i] == '➜' || text[i] == '›'
                &&& forall|j: int| i < j < text.len() ==> white_space(#[trigger] text[j])
            },
{
    trim_end_leaves(text);
    let n = trim_end(text).len() as int;
    if prompt_at_end(text) {
        assert(text[n - 1] == trim_end(text).last());
        assert forall|j: int| n - 1 < j < text.len() implies white_space(#[trigger] text[j]) by {
            assert(text.skip(n)[j - n] == text[j]);
        }
    }
    assert forall|i: int|
        #![trigger text[i]]
        {
            &&& 0 <= i < text.len()
            &&& prompt_mark(text[i])
            &&& forall|j: int| i < j < text.len() ==> white_space(#[trigger] text[j])
        } implies prompt_at_end(text) by {
        let before = text.take(i);
        let space = text.skip(i + 1);
        assert(text =~= before.push(text[i]) + space);
        last_visible_character_decides(before, text[i], space);
    }
}

/// What a pane shows is decided by the text without its escape codes, whatever
/// codes there were: a mark stands in that text with nothing but white space
/// after it, or no prompt is shown.
pub proof fn stripped_text_decides(content: Seq<char>)
    ensures
        ({
            let text = crate::prompt::without_ansi_codes(content);
            crate::prompt::shows_prompt(content) <==> exists|i: int|
                #![trigger text[i]]
                {
                    &&& 0 <= i < text.len()
                    &&& text[i] == '$' || text[i] == '%' || text[i] == '#' || text[i] == '>'
                        || text[i] == '❯' || text[i] == '➜' || text[i] == '›'
                    &&& forall|j: int| i < j < text.len() ==> white_space(#[trigger] text[j])
                }
        }),
{
    prompt_is_a_mark_followed_by_white_space(crate::prompt::without_ansi_codes(content));
}

/// Two contents that differ in their escape codes alone show the same.
pub proof fn escape_codes_do_not_matter(one: Seq<char>, other: Seq<char>)
    requires
        crate::prompt::without_ansi_codes(one) == crate::prompt::without_ansi_codes(other),
    ensures
        crate::prompt::shows_prompt(one) == crate::prompt::shows_prompt(other),
{
}

/// A pane whose last visible line is not a prompt shows none, whatever stands on
/// its earlier lines and whatever codes there were.
pub proof fn only_the_last_visible_line_is_shown(content: Seq<char>)
    ensures
        crate::prompt::shows_prompt(content) <==> exists|i: int|
            #![trigger lines(crate::prompt::without_ansi_codes(content))[i]]
            last_visible_line(lines(crate::prompt::without_ansi_codes(content)), i)
                && prompt_at_end(lines(crate::prompt::without_ansi_codes(content))[i]),
{
    prompt_is_on_the_last_visible_line(crate::prompt::without_ansi_codes(content));
}

/// The white space characters: the tab to the carriage return, the space, the
/// next line, the no-break spaces, and the spaces and separators of Unicode.
pub proof fn white_space_characters(c: char)
    ensures
        white_space(c) <==> {
            ||| '\t' <= c <= '\r'
            ||| c == ' '
            ||| c == '\u{85}'
            ||| c == '\u{a0}'
            ||| c == '\u{1680}'
            ||| '\u{2000}' <= c <= '\u{200a}'
            ||| c == '\u{2028}'
            ||| c == '\u{2029}'
            ||| c == '\u{202f}'
            ||| c == '\u{205f}'
            ||| c == '\u{3000}'
        },
{
}

/// A line ending more or less makes no piece blank or visible, and changes
/// nothing of what is left of it when it is trimmed.
proof fn line_ending_is_trimmed(piece: Seq<char>)
    ensures
        trim_end(without_ending(piece)) == trim_end(piece),
        blank(without_ending(piece)) == blank(piece),
{
    if piece.len() > 0 && piece.last() == '\n' {
        let line = piece.drop_last();
        assert(trim_end(piece) == trim_end(line));
        if line.len() > 0 && line.last() == '\r' {
            assert(trim_end(line) == trim_end(line.drop_last()));
        }
    }
    trim_end_leaves(piece);
    trim_end_leaves(without_ending(piece));
}

/// A text shows a prompt if and only if the last of its parts that is not blank
/// does.
proof fn prompt_of_pieces(text: Seq<char>, parts: Seq<Seq<char>>)
    requires
        text == parts.flatten(),
    ensures
        prompt_at_end(text) <==> exists|i: int|
            #![trigger parts[i]]
            last_visible_line(parts, i) && prompt_at_end(parts[i]),
    decreases parts.len(),
{
    if parts.len() == 0 {
        parts.lemma_flatten_and_flatten_alt_are_equivalent();
        assert(text.len() == 0);
    } else {
        let before = parts.drop_last();
        let last = parts.last();
        let n = parts.len() - 1;
        parts.lemma_flatten_and_flatten_alt_are_equivalent();
        before.lemma_flatten_and_flatten_alt_are_equivalent();
        assert(text == before.flatten() + last);
        prompt_of_pieces(before.flatten(), before);
        if blank(last) {
            trim_end_of_trailing_blank(before.flatten(), last);
            assert forall|i: int| #![trigger parts[i]]
                last_visible_line(parts, i) implies last_visible_line(before, i) && before[i]
                == parts[i] by {
                assert(i != n);
                assert forall|j: int| i < j < before.len() implies blank(#[trigger] before[j]) by {
                    assert(before[j] == parts[j]);
                }
            }
            assert forall|i: int| #![trigger before[i]]
                last_visible_line(before, i) implies last_visible_line(parts, i) && before[i]
                == parts[i] by {
                assert forall|j: int| i < j < parts.len() implies blank(#[trigger] parts[j]) by {
                    if j < n {
                        assert(before[j] == parts[j]);
                    }
                }
            }
            if exists|i: int|
                #![trigger parts[i]]
                last_visible_line(parts, i) && prompt_at_end(parts[i]) {
                let i = choose|i: int|
                    #![trigger parts[i]]
                    last_visible_line(parts, i) && prompt_at_end(parts[i]);
                assert(last_visible_line(before, i) && prompt_at_end(before[i]));
            }
        } else {
            earlier_output_does_not_matter(before.flatten(), last);
            assert(last_visible_line(parts, n));
            assert(parts[n] == last);
            assert forall|i: int| #![trigger parts[i]]
                last_visible_line(parts, i) implies i == n by {
                if i < n {
                    assert(blank(parts[n]));
                }
            }
        }
    }
}

/// The pieces of a text, one after the other, are the text.
proof fn pieces_make_the_text(text: Seq<char>)
    ensures
        pieces(text).flatten() == text,
        text.len() > 0 ==> pieces(text).len() > 0,
    decreases text.len(),
{
    let parts = pieces(text);
    parts.lemma_flatten_and_flatten_alt_are_equivalent();
    if text.len() == 0 {
        assert(parts.flatten_alt() =~= text);
    } else {
        let shorter = text.drop_last();
        let before = pieces(shorter);
        pieces_make_the_text(shorter);
        before.lemma_flatten_and_flatten_alt_are_equivalent();
        parts.drop_last().lemma_flatten_and_flatten_alt_are_equivalent();
        if text.len() == 1 || shorter.last() == '\n' {
            assert(parts.drop_last() =~= before);
            assert(parts.last() == seq![text.last()]);
            assert(parts.flatten_alt() =~= text);
        } else {
            let head = before.drop_last();
            head.lemma_flatten_and_flatten_alt_are_equivalent();
            assert(parts.drop_last() =~= head);
            assert(parts.last() == before.last().push(text.last()));
            assert(shorter == head.flatten_alt() + before.last());
            assert(parts.flatten_alt() == head.flatten_alt() + parts.last());
            assert(shorter.push(text.last()) =~= text);
            assert(parts.flatten_alt() =~= shorter.push(text.last()));
        }
    }
}

/// A text shows a prompt if and only if the last of its lines that is not blank
/// ends, trailing white space aside, in a prompt mark.
pub proof fn prompt_is_on_the_last_visible_line(text: Seq<char>)
    ensures
        prompt_at_end(text) <==> exists|i: int|
            #![trigger lines(text)[i]]
            last_visible_line(lines(text), i) && prompt_at_end(lines(text)[i]),
{
    let parts = pieces(text);
    let all = lines(text);
    pieces_make_the_text(text);
    prompt_of_pieces(text, parts);
    assert forall|i: int| #![trigger all[i]] #![trigger parts[i]] 0 <= i < parts.len() implies blank(
        all[i],
    ) == blank(parts[i]) && prompt_at_end(all[i]) == prompt_at_end(parts[i]) by {
        line_ending_is_trimmed(parts[i]);
    }
    assert forall|i: int| #![trigger all[i]] #![trigger parts[i]]
        last_visible_line(all, i) == last_visible_line(parts, i) by {
        if last_visible_line(all, i) {
            assert forall|j: int| i < j < parts.len() implies blank(#[trigger] parts[j]) by {
                assert(blank(all[j]));
            }
        }
        if last_visible_line(parts, i) {
            assert forall|j: int| i < j < all.len() implies blank(#[trigger] all[j]) by {
                assert(blank(parts[j]));
            }
        }
    }
    if prompt_at_end(text) {
        let i = choose|i: int|
            #![trigger parts[i]]
            last_visible_line(parts, i) && prompt_at_end(parts[i]);
        assert(last_visible_line(all, i) && prompt_at_end(all[i]));
    }
    if exists|i: int|
        #![trigger all[i]]
        last_visible_line(all, i) && prompt_at_end(all[i]) {
        let i = choose|i: int|
            #![trigger all[i]]
            last_visible_line(all, i) && prompt_at_end(all[i]);
        assert(last_visible_line(parts, i) && prompt_at_end(parts[i]));
    }
}

} // verus!
