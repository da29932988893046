use pane_handshake::prompt::{ends_with_prompt, has_shell_prompt, is_prompt_mark, is_white_space};

#[test]
fn detects_bash_dollar_prompt() {
    assert!(has_shell_prompt("user@host:~$"));
    assert!(has_shell_prompt("user@host:~/dev $"));
}

#[test]
fn detects_zsh_percent_prompt() {
    assert!(has_shell_prompt("user@host %"));
    assert!(has_shell_prompt("%"));
}

#[test]
fn detects_root_hash_prompt() {
    assert!(has_shell_prompt("root@host:~#"));
    assert!(has_shell_prompt("# "));
}

#[test]
fn detects_starship_prompt() {
    assert!(has_shell_prompt("~/dev ❯"));
    assert!(has_shell_prompt("❯"));
}

#[test]
fn detects_ohmyzsh_arrow_prompt() {
    // The robbyrussell theme puts the arrow at the start, not the end. Its full
    // line is not detected; the time limit handles that case gracefully.
    assert!(has_shell_prompt("➜"));
}

#[test]
fn a_mark_at_the_start_of_the_line_is_no_prompt() {
    assert!(!has_shell_prompt("➜  workmux git:(main) ✗"));
}

#[test]
fn detects_nushell_prompt() {
    assert!(has_shell_prompt("~>"));
    assert!(has_shell_prompt("/home/user >"));
}

#[test]
fn detects_prompt_with_ansi_codes() {
    assert!(has_shell_prompt("\x1b[32muser@host\x1b[0m $"));
    assert!(has_shell_prompt("\x1b[1;34m~/dev\x1b[0m \x1b[33m❯\x1b[0m"));
}

#[test]
fn skips_blank_trailing_lines() {
    assert!(has_shell_prompt("user@host:~$\n\n\n"));
    assert!(has_shell_prompt("some output\nuser@host %\n  \n"));
}

#[test]
fn rejects_empty_content() {
    assert!(!has_shell_prompt(""));
    assert!(!has_shell_prompt("\n\n\n"));
    assert!(!has_shell_prompt("   \n   "));
}

#[test]
fn rejects_content_without_prompt() {
    assert!(!has_shell_prompt("Loading direnv..."));
    assert!(!has_shell_prompt("Welcome to Ubuntu 22.04"));
    assert!(!has_shell_prompt("Last login: Mon Apr 28"));
}

#[test]
fn escape_codes_after_the_prompt_are_stripped() {
    let content = "user@host:~$ \x1b[0m";
    assert!(has_shell_prompt(content));
    // The code itself ends in a letter, so it must not be looked at.
    assert!(!ends_with_prompt(content));
}

#[test]
fn no_prompt_without_a_mark() {
    assert!(!has_shell_prompt("\x1b[32muser@host\x1b[0m"));
    assert!(!has_shell_prompt("\x1b]0;title\x07done"));
    // A mark inside an escape code is stripped with it.
    assert!(!has_shell_prompt("done\x1b]0;title $\x07"));
}

#[test]
fn white_space_is_unicode_white_space() {
    for n in 0..=0x10ffffu32 {
        if let Some(c) = char::from_u32(n) {
            assert_eq!(is_white_space(c), c.is_whitespace(), "{:x}", n);
        }
    }
}

#[test]
fn there_are_seven_prompt_marks() {
    let mut marks = String::new();
    for n in 0..=0x10ffffu32 {
        if let Some(c) = char::from_u32(n) {
            if is_prompt_mark(c) {
                marks.push(c);
            }
        }
    }
    assert_eq!(marks, "#$%>›❯➜");
}

#[test]
fn only_the_last_visible_line_counts() {
    assert!(!has_shell_prompt("user@host:~$\nLoading direnv..."));
    assert!(has_shell_prompt("Loading direnv...\r\nuser@host:~$\r\n\r\n"));
    assert!(has_shell_prompt("user@host:~$\u{a0}\u{3000}\n\t"));
}

#[test]
fn earlier_output_changes_nothing() {
    for text in ["~ $", "~ $ \n\n", "done", "%", "a\n b > \r\n"] {
        let mut content = String::from("first line $\nsecond line\n");
        content.push_str(text);
        assert_eq!(ends_with_prompt(&content), ends_with_prompt(text));
    }
}

#[test]
fn trailing_blank_lines_change_nothing() {
    for text in ["~ $", "done", "", " ", "a\n b >"] {
        let mut content = String::from(text);
        content.push_str(" \r\n\n\t \u{2028}\n");
        assert_eq!(ends_with_prompt(&content), ends_with_prompt(text));
    }
}

#[test]
fn agrees_with_the_last_line_that_is_not_blank() {
    let texts = [
        "", "\n", "$", "$\n", "$\r\n", "$\r", "a$\nb", "a$\n \nb%\n\n", "x\r\ny\r\n$ \r\n", "\r$\r",
        "$\u{b}\n", "> >\nfoo", "❯\n\u{2003}",
    ];
    for text in texts {
        let line = text.lines().rev().find(|line| !line.trim().is_empty());
        let expected = match line {
            Some(line) => matches!(
                line.trim_end().chars().last(),
                Some('$' | '%' | '#' | '>' | '❯' | '➜' | '›')
            ),
            None => false,
        };
        assert_eq!(ends_with_prompt(text), expected, "{:?}", text);
    }
}
