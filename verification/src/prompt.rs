//! Does the text of a pane end in a shell prompt?

use vstd::prelude::*;

verus! {

/// The characters with the Unicode property White_Space.
pub open spec fn white_space(c: char) -> bool {
    let n = c as u32;
    ||| 0x9 <= n <= 0xd
    ||| n == 0x20
    ||| n == 0x85
    ||| n == 0xa0
    ||| n == 0x1680
    ||| 0x2000 <= n <= 0x200a
    ||| n == 0x2028
    ||| n == 0x2029
    ||| n == 0x202f
    ||| n == 0x205f
    ||| n == 0x3000
}

/// The text without the white space at its end.
pub open spec fn trim_end(text: Seq<char>) -> Seq<char>
    decreases text.len(),
{
    if text.len() > 0 && white_space(text.last()) {
        trim_end(text.drop_last())
    } else {
        text
    }
}

/// The characters that shells commonly end their prompts with.
pub open spec fn prompt_mark(c: char) -> bool {
    ||| c == '$'
    ||| c == '%'
    ||| c == '#'
    ||| c == '>'
    ||| c == '❯'
    ||| c == '➜'
    ||| c == '›'
}

/// The last character that is not white space is a prompt mark.
pub open spec fn prompt_at_end(text: Seq<char>) -> bool {
    trim_end(text).len() > 0 && prompt_mark(trim_end(text).last())
}

/// What `console::strip_ansi_codes` leaves of a text.
pub uninterp spec fn without_ansi_codes(text: Seq<char>) -> Seq<char>;

/// The content, without its ANSI escape codes, ends in a prompt.
pub open spec fn shows_prompt(content: Seq<char>) -> bool {
    prompt_at_end(without_ansi_codes(content))
}

/// The text holds neither ESC nor CSI, with which ANSI escape codes begin.
pub open spec fn no_escapes(text: Seq<char>) -> bool {
    !text.contains('\u{1b}') && !text.contains('\u{9b}')
}

/// The text holds a character that prompts end with.
pub open spec fn holds_prompt_mark(text: Seq<char>) -> bool {
    exists|i: int| 0 <= i < text.len() && prompt_mark(#[trigger] text[i])
}

/// Calls `console::strip_ansi_codes`. Trusted: the result is a function of the
/// text, a text in which no escape code can begin comes back as it is, and no
/// character is put in that was not there. Which stretches of a text are taken
/// for codes is not said here.
#[verifier::external_body]
fn strip_ansi_codes(text: &str) -> (stripped: String)
    ensures
        stripped@ == without_ansi_codes(text@),
        no_escapes(text@) ==> stripped@ == text@,
        forall|c: char| #[trigger] stripped@.contains(c) ==> text@.contains(c),
{
    console::strip_ansi_codes(text).into_owned()
}

/// Is the character white space?
pub fn is_white_space(c: char) -> (r: bool)
    ensures
        r == white_space(c),
{
    let n: u32 = c as u32;
    (0x9 <= n && n <= 0xd) || n == 0x20 || n == 0x85 || n == 0xa0 || n == 0x1680 || (0x2000 <= n
        && n <= 0x200a) || n == 0x2028 || n == 0x2029 || n == 0x202f || n == 0x205f || n == 0x3000
}

/// Is the character one that prompts end with?
pub fn is_prompt_mark(c: char) -> (r: bool)
    ensures
        r == prompt_mark(c),
{
    // $  - bash default, zsh with some themes
    // %  - zsh default
    // #  - root shells
    // >  - nushell, powershell, some custom prompts
    // ❯  - starship, pure, powerlevel10k
    // ➜  - oh-my-zsh robbyrussell theme
    // ›  - some custom prompts
    c == '$' || c == '%' || c == '#' || c == '>' || c == '❯' || c == '➜' || c == '›'
}

/// Does a text without escape codes end in a prompt, blank lines and trailing
/// white space aside?
pub fn ends_with_prompt(text: &str) -> (r: bool)
    ensures
        r == prompt_at_end(text@),
{
    let mut last: Option<char> = None;
    for c in it: text.chars()
        invariant
            it.seq() == text@,
            match last {
                Some(l) => trim_end(text@.take(it.index())).len() > 0 && trim_end(
                    text@.take(it.index()),
                ).last() == l,
                None => trim_end(text@.take(it.index())).len() == 0,
            },
    {
        proof {
            let next = text@.take(it.index() + 1);
            assert(next.drop_last() =~= text@.take(it.index()));
            assert(next.last() == c);
        }
        if !is_white_space(c) {
            last = Some(c);
        }
    }
    assert(text@.take(text@.len() as int) =~= text@);
    match last {
        Some(c) => is_prompt_mark(c),
        None => false,
    }
}

/// Does the captured content of a pane show a shell prompt on its last line
/// that is not blank? Escape codes are stripped first.
pub fn has_shell_prompt(content: &str) -> (r: bool)
    ensures
        r == shows_prompt(content@),
        r == prompt_at_end(without_ansi_codes(content@)),
        no_escapes(content@) ==> r == prompt_at_end(content@),
        r ==> holds_prompt_mark(content@),
{
    let stripped = strip_ansi_codes(content);
    proof {
        let visible = trim_end(stripped@);
        crate::prompt_laws::trim_end_leaves(stripped@);
        if visible.len() > 0 {
            assert(stripped@.contains(visible.last()));
        }
    }
    ends_with_prompt(stripped.as_str())
}

} // verus!
