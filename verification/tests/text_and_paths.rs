use resilissh::number::{decimal_text, parse_port};
use resilissh::order::text_at_most;
use resilissh::path::{file_name, join, parent};
use resilissh::storage::{
    app_data_dir, app_data_dir_in, data_file_path, expand_home, new_id, show_dir, temp_path,
};
use resilissh::text::{
    contains, ends_with_char, is_white, starts_with, to_ascii_lowercase, trim, trim_end,
    trim_end_of, trim_start,
};
use std::path::Path;

/// All texts over an alphabet up to a length.
fn texts_over(alphabet: &[char], max: usize) -> Vec<String> {
    let mut all: Vec<String> = vec![String::new()];
    let mut last: Vec<String> = vec![String::new()];
    for _ in 0..max {
        let mut next: Vec<String> = Vec::new();
        for t in &last {
            for c in alphabet {
                let mut longer = t.clone();
                longer.push(*c);
                next.push(longer);
            }
        }
        all.extend(next.iter().cloned());
        last = next;
    }
    all
}

#[test]
fn white_space_is_that_of_unicode() {
    for n in 0..=0x10ffff_u32 {
        if let Some(c) = char::from_u32(n) {
            assert_eq!(is_white(c), c.is_whitespace(), "{:x}", n);
        }
    }
}

#[test]
fn trimming_agrees_with_the_standard_library() {
    for t in texts_over(&['a', ' ', '\t', '\u{3000}'], 5) {
        assert_eq!(trim(&t), t.trim());
        assert_eq!(trim_start(&t), t.trim_start());
        assert_eq!(trim_end(&t), t.trim_end());
        assert_eq!(trim(trim(&t)), trim(&t));
    }
    assert_eq!(trim_end_of("a/b//", '/', '/'), "a/b");
    assert_eq!(trim_end_of("a\\/\\", '/', '\\'), "a");
}

#[test]
fn searching_agrees_with_the_standard_library() {
    let all = texts_over(&['a', 'b', '「'], 4);
    for s in &all {
        for p in texts_over(&['a', 'b', '「'], 2) {
            assert_eq!(contains(s, &p), s.contains(p.as_str()));
            assert_eq!(starts_with(s, &p), s.starts_with(p.as_str()));
        }
        assert_eq!(ends_with_char(s, '「'), s.ends_with('「'));
    }
    assert_eq!(to_ascii_lowercase("SHA-256 ÄÖ 校验Z"), "sha-256 ÄÖ 校验z");
}

#[test]
fn text_order_agrees_with_the_standard_library() {
    let all = texts_over(&['a', 'b', '\u{ffff}', '\u{10000}'], 3);
    for a in &all {
        for b in &all {
            assert_eq!(text_at_most(a, b), a <= b);
        }
    }
}

#[test]
fn paths_agree_with_the_standard_library() {
    for t in texts_over(&['a', '.', '/'], 7) {
        let p = Path::new(&t);
        assert_eq!(file_name(&t), p.file_name().map(|n| n.to_str().unwrap()), "{:?}", t);
        assert_eq!(parent(&t), p.parent().map(|n| n.to_str().unwrap()), "{:?}", t);
    }
    for base in texts_over(&['a', '.', '/'], 4) {
        for name in texts_over(&['b', '/'], 3) {
            let expected = Path::new(&base).join(&name);
            assert_eq!(join(&base, &name), expected.to_str().unwrap(), "{:?} {:?}", base, name);
        }
    }
}

#[test]
fn temp_files_stand_beside_their_target() {
    assert_eq!(temp_path("/data/x.json").unwrap(), "/data/.x.json.tmp");
    assert_eq!(temp_path("x.json").unwrap(), ".x.json.tmp");
    assert_eq!(temp_path("/").unwrap_err(), "invalid checkpoint path");
    assert_eq!(temp_path("a/..").unwrap_err(), "invalid checkpoint path");
    for t in texts_over(&['a', '.', '/'], 6) {
        let p = Path::new(&t);
        if let Some(name) = p.file_name() {
            let expected = p.with_file_name(format!(".{}.tmp", name.to_str().unwrap()));
            assert_eq!(temp_path(&t).unwrap(), expected.to_str().unwrap());
        }
    }
}

#[test]
fn decimal_text_of_numbers() {
    for n in [0_u128, 7, 10, 99, 1_000, 33_556_504, u64::MAX as u128, u128::MAX] {
        assert_eq!(decimal_text(n), n.to_string());
    }
    assert_eq!(new_id(1_720_000_000_123), "1720000000123");
}

#[test]
fn ports_are_read_as_the_standard_library_reads_them() {
    for s in [
        "0", "22", "+22", "65535", "65536", "", "+", "-1", "2 2", "022", "abc", "99999999999", "++1",
        "１２",
    ] {
        assert_eq!(parse_port(s), s.parse::<u16>().ok(), "{}", s);
    }
    for port in 0..=u16::MAX {
        assert_eq!(parse_port(&port.to_string()), Some(port));
    }
}

#[test]
fn the_data_directory_is_named_after_the_tool() {
    let share = b"/home/u/.local/share".to_vec();
    assert_eq!(app_data_dir_in(Some(share)), b"/home/u/.local/share/sshutil");
    assert_eq!(app_data_dir_in(Some(b"/x\xff/".to_vec())), b"/x\xff/sshutil");
    assert_eq!(app_data_dir_in(None), b"./sshutil");
    let base = dirs::data_local_dir().map(|p| p.to_str().unwrap().as_bytes().to_vec());
    let expected = app_data_dir_in(base);
    assert_eq!(app_data_dir(), expected);
    let file = [expected, b"/profiles.json".to_vec()].concat();
    assert_eq!(data_file_path("profiles.json"), file);
    assert_eq!(data_file_path("/abs"), b"/abs");
}

#[test]
fn directories_are_shown_as_text() {
    assert_eq!(show_dir(Some("/家/u".as_bytes().to_vec())).as_deref(), Some("/家/u"));
    assert_eq!(show_dir(Some(b"/h\xff/u".to_vec())).as_deref(), Some("/h\u{fffd}/u"));
    assert_eq!(show_dir(None), None);
}

#[test]
fn a_tilde_stands_for_the_home_directory() {
    let home = Some("/home/u".to_string());
    assert_eq!(expand_home("~/.ssh/id", &home), "/home/u/.ssh/id");
    assert_eq!(expand_home("~", &home), "/home/u");
    assert_eq!(expand_home("~other/x", &home), "~other/x");
    assert_eq!(expand_home("/abs", &home), "/abs");
    assert_eq!(expand_home("~//abs", &home), "/abs");
    assert_eq!(expand_home("~/.ssh/id", &None), "~/.ssh/id");
}
