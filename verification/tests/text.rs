use dispenser::cloud::key_cmp;
use dispenser::rcon::player_count;
use dispenser::text::{chars_of, decimal, is_white_space, same_text, trim};

#[test]
fn keys_with_different_comments_are_the_same_key() {
    assert!(key_cmp(
        "ssh-ed25519 AAAAC3NzaC1lZDI1NTE5 alice@laptop",
        "ssh-ed25519 AAAAC3NzaC1lZDI1NTE5 bob@desktop"
    ));
}

#[test]
fn key_without_comment_is_the_same_key() {
    assert!(key_cmp(
        "ssh-ed25519 AAAAC3NzaC1lZDI1NTE5",
        "ssh-ed25519 AAAAC3NzaC1lZDI1NTE5 bob@desktop"
    ));
}

#[test]
fn keys_that_differ_in_the_key_are_different() {
    assert!(!key_cmp(
        "ssh-ed25519 AAAAC3NzaC1lZDI1NTE5 alice",
        "ssh-ed25519 AAAAC3NzaC1lZDI1NTE6 alice"
    ));
}

#[test]
fn keys_that_differ_in_the_algorithm_are_different() {
    assert!(!key_cmp("ssh-rsa AAAA alice", "ssh-ed25519 AAAA alice"));
}

#[test]
fn key_of_one_piece_differs_from_key_of_two() {
    assert!(!key_cmp("ssh-rsa", "ssh-rsa AAAA"));
    assert!(!key_cmp("ssh-rsa AAAA", "ssh-rsa"));
    assert!(key_cmp("ssh-rsa", "ssh-rsa"));
}

#[test]
fn empty_second_piece_is_a_piece() {
    // "a " has the pieces "a" and "", "a" has only "a".
    assert!(!key_cmp("a ", "a"));
    assert!(key_cmp("a ", "a  b"));
    assert!(key_cmp("", ""));
    assert!(!key_cmp("", " "));
}

#[test]
fn key_is_its_own_key() {
    let key = "ssh-ed25519 AAAAC3NzaC1lZDI1NTE5 comment with spaces";
    assert!(key_cmp(key, key));
}

#[test]
fn decimal_digits() {
    assert_eq!(decimal(0), "0");
    assert_eq!(decimal(7), "7");
    assert_eq!(decimal(10), "10");
    assert_eq!(decimal(305), "305");
    assert_eq!(decimal(1234567890), "1234567890");
    assert_eq!(decimal(u32::MAX), "4294967295");
}

#[test]
fn trim_removes_white_space_at_both_ends() {
    assert_eq!(trim("  secret\n"), "secret");
    assert_eq!(trim("secret"), "secret");
    assert_eq!(trim("\t a b \r\n"), "a b");
    assert_eq!(trim(""), "");
    assert_eq!(trim(" \n\t "), "");
    assert_eq!(trim("\u{a0}x\u{2003}"), "x");
    assert_eq!(trim(" é "), "é");
}

#[test]
fn trim_agrees_with_the_standard_library() {
    for text in ["", " ", "a", " a", "a ", "  a  b  ", "\n\na\n\n", "\u{3000}a\u{3000}", "x\u{200b}"] {
        assert_eq!(trim(text), text.trim());
    }
}

#[test]
fn chars_of_text() {
    assert_eq!(chars_of("aé"), vec!['a', 'é']);
    assert_eq!(chars_of(""), Vec::<char>::new());
}

#[test]
fn same_text_compares_by_content() {
    assert!(same_text("spire", "spire"));
    assert!(!same_text("spire", "Spire"));
    assert!(!same_text("spire", "spire "));
}

#[test]
fn players_are_counted_without_header_and_bots() {
    let status = "hostname: Spire\n\
version : 6300758/24 6300758 secure\n\
udp/ip  : 1.2.3.4:27015  (public ip: 1.2.3.4)\n\
players : 2 humans, 1 bots (25 max)\n\
# userid name                uniqueid            connected ping loss state  adr\n\
#      2 \"Player One\"        [U:1:12345]         05:12       50    0 active 10.0.0.1:27005\n\
#      3 \"SpireTV\"           BOT                                     active\n\
#      4 \"Player Two\"        [U:1:54321]         01:02       60    0 active 10.0.0.2:27005\n";
    assert_eq!(player_count(status), 2);
}

#[test]
fn empty_server_has_no_players() {
    let status = "hostname: Spire\n# userid name uniqueid connected ping loss state adr\n";
    assert_eq!(player_count(status), 0);
    assert_eq!(player_count(""), 0);
    assert_eq!(player_count("\n\n"), 0);
}

#[test]
fn last_line_without_line_feed_counts() {
    assert_eq!(player_count("#  2 \"a\" [U:1:1] 00:10 5 0 active"), 1);
    assert_eq!(player_count("x\n#  2 \"a\" [U:1:1] 00:10 5 0 active"), 1);
}

#[test]
fn lines_with_carriage_returns_count() {
    assert_eq!(player_count("# 2 \"a\"\r\n# 3 \"b\"\r\n"), 2);
}

#[test]
fn hash_must_start_the_line() {
    assert_eq!(player_count(" # 2 \"a\"\nname # 3\n"), 0);
    assert_eq!(player_count("#"), 1);
}

#[test]
fn player_count_agrees_with_line_filters() {
    let reports = [
        "# userid\n#1 a\n#2  BOT \n#3 c",
        "#\n#\n\n#",
        "# 1 \"BOT\" x\n# 2 BOT\n# 3  BOT  x",
        "a\r\n# 1\r\n",
    ];
    for report in reports {
        let expected = report
            .lines()
            .filter(|line| line.starts_with('#'))
            .filter(|line| !line.contains("# userid"))
            .filter(|line| !line.contains(" BOT "))
            .count();
        assert_eq!(player_count(report), expected);
    }
}

#[test]
fn white_space_is_what_the_standard_library_takes_for_it() {
    let mut count = 0;
    for code in 0..=0x10ffffu32 {
        if let Some(c) = char::from_u32(code) {
            assert_eq!(is_white_space(c), c.is_whitespace(), "U+{:04X}", code);
            if is_white_space(c) {
                count += 1;
            }
        }
    }
    assert_eq!(count, 25);
}

#[test]
fn white_space_characters() {
    for c in ['\t', '\n', '\u{b}', '\u{c}', '\r', ' ', '\u{85}', '\u{a0}', '\u{1680}'] {
        assert!(is_white_space(c));
    }
    for c in ['\u{2000}', '\u{200a}', '\u{2028}', '\u{2029}', '\u{202f}', '\u{205f}', '\u{3000}'] {
        assert!(is_white_space(c));
    }
    for c in ['\u{8}', '\u{e}', 'a', '\u{180e}', '\u{200b}', '\u{2060}', '\u{feff}', '\0'] {
        assert!(!is_white_space(c));
    }
}
