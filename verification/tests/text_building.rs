use meow_simulator::decimal::decimal_string;
use meow_simulator::quoting::double_quotes;
use meow_simulator::scripts::{
    cleanup_script, delete_command, setup_dir_name, shortcut_script, uninstall_question,
};
use meow_simulator::wide::wide;

#[test]
fn decimal_of_small_and_large_numbers() {
    assert_eq!(decimal_string(0), "0");
    assert_eq!(decimal_string(7), "7");
    assert_eq!(decimal_string(10), "10");
    assert_eq!(decimal_string(1234567890), "1234567890");
    assert_eq!(decimal_string(u64::MAX), "18446744073709551615");
}

#[test]
fn decimal_matches_format() {
    for n in [1u64, 9, 99, 100, 101, 65535, 4294967296] {
        assert_eq!(decimal_string(n), format!("{}", n));
    }
}

#[test]
fn single_quotes_are_doubled() {
    assert_eq!(double_quotes("it's", '\''), "it''s");
    assert_eq!(double_quotes("''", '\''), "''''");
    assert_eq!(double_quotes("plain", '\''), "plain");
    assert_eq!(double_quotes("", '\''), "");
}

#[test]
fn double_quotes_are_doubled() {
    assert_eq!(double_quotes("a\"b", '"'), "a\"\"b");
    assert_eq!(double_quotes("it's", '"'), "it's");
}

#[test]
fn doubling_matches_replace() {
    let s = "C:\\Users\\O'Brien\\Desktop\\Meow Simulator.lnk";
    assert_eq!(double_quotes(s, '\''), s.replace('\'', "''"));
}

/// Reads back the body of a quoted literal as the shell does.
fn read_back(body: &str, q: char) -> Option<String> {
    let mut out = String::new();
    let mut chars = body.chars();
    while let Some(c) = chars.next() {
        if c == q {
            if chars.next() != Some(q) {
                return None;
            }
        }
        out.push(c);
    }
    Some(out)
}

#[test]
fn quoted_text_reads_back_whole() {
    for s in ["", "'", "a'b'c", "''x''", "no quotes", "ünïcödé'"] {
        assert_eq!(read_back(&double_quotes(s, '\''), '\''), Some(s.to_string()));
    }
}

#[test]
fn shortcut_script_quotes_both_paths() {
    let script = shortcut_script("C:\\Program Files\\Cat's\\MeowSimulatorRust.exe", "C:\\Desk\\Meow Simulator.lnk");
    assert_eq!(
        script,
        "$s=(New-Object -ComObject WScript.Shell).CreateShortcut('C:\\Desk\\Meow Simulator.lnk');\
         $s.TargetPath='C:\\Program Files\\Cat''s\\MeowSimulatorRust.exe';$s.Save()"
    );
}

#[test]
fn cleanup_script_waits_then_removes() {
    assert_eq!(
        cleanup_script(4321, "C:\\Temp\\Meow'Installer"),
        "Wait-Process -Id 4321 -ErrorAction SilentlyContinue; Remove-Item -Recurse -Force 'C:\\Temp\\Meow''Installer'"
    );
}

#[test]
fn delete_command_quotes_dir() {
    assert_eq!(
        delete_command("C:\\Apps\\Meow \"Sim\""),
        "timeout /t 2 >nul & rmdir /s /q \"C:\\Apps\\Meow \"\"Sim\"\"\""
    );
}

#[test]
fn setup_dir_name_holds_pid() {
    assert_eq!(setup_dir_name(42), "meow-setup-42");
    assert_eq!(setup_dir_name(0), "meow-setup-0");
}

#[test]
fn uninstall_question_names_dir() {
    assert_eq!(
        uninstall_question("C:\\Meow"),
        "Are you sure you want to uninstall Meow Simulator?\n\nThis will remove all files from:\nC:\\Meow"
    );
}

#[test]
fn wide_is_nul_terminated_utf16() {
    assert_eq!(wide(""), vec![0u16]);
    assert_eq!(wide("A"), vec![65u16, 0]);
    assert_eq!(wide("é"), vec![0xE9u16, 0]);
    assert_eq!(wide("😀"), vec![0xD83Du16, 0xDE00, 0]);
    let s = "Meow Simulator 🐱 ok";
    let mut expected: Vec<u16> = s.encode_utf16().collect();
    expected.push(0);
    assert_eq!(wide(s), expected);
}

#[test]
fn wide_reads_back() {
    let s = "Purr 😺 \u{FFFF} \u{10000} \u{10FFFF}";
    let w = wide(s);
    assert_eq!(String::from_utf16(&w[..w.len() - 1]).unwrap(), s);
}
