use backend_supervisor::path::{join, parent, parent_or_same, Platform};
use backend_supervisor::text::{is_whitespace, join_list, to_decimal, trim};

#[test]
fn decimal_of_small_and_large_numbers() {
    assert_eq!(to_decimal(0), "0");
    assert_eq!(to_decimal(7), "7");
    assert_eq!(to_decimal(10), "10");
    assert_eq!(to_decimal(3001), "3001");
    assert_eq!(to_decimal(65535), "65535");
    assert_eq!(to_decimal(u64::MAX), "18446744073709551615");
}

#[test]
fn decimal_agrees_with_the_standard_formatting() {
    let mut n: u64 = 0;
    while n < 20000 {
        assert_eq!(to_decimal(n), format!("{}", n));
        n += 37;
    }
}

#[test]
fn join_list_puts_the_separator_between_parts() {
    let none: Vec<String> = Vec::new();
    assert_eq!(join_list(&none, ", "), "");
    assert_eq!(join_list(&vec!["a".to_string()], ", "), "a");
    assert_eq!(
        join_list(&vec!["a".to_string(), "b".to_string(), "c".to_string()], ", "),
        "a, b, c"
    );
    assert_eq!(join_list(&vec!["".to_string(), "".to_string()], "-"), "-");
}

#[test]
fn trim_takes_white_space_off_both_ends() {
    assert_eq!(trim("  v20.11.0\r\n"), "v20.11.0");
    assert_eq!(trim("\t a b \u{00A0}"), "a b");
    assert_eq!(trim(""), "");
    assert_eq!(trim(" \n\t "), "");
    assert_eq!(trim("plain"), "plain");
    assert_eq!(trim("\u{3000}wide\u{2003}"), "wide");
}

#[test]
fn whitespace_is_what_the_standard_library_calls_whitespace() {
    let mut code: u32 = 0;
    while code < 0x3100 {
        if let Some(c) = char::from_u32(code) {
            assert_eq!(is_whitespace(c), c.is_whitespace(), "U+{:04X}", code);
        }
        code += 1;
    }
}

#[test]
fn trim_agrees_with_the_standard_library() {
    for s in ["", " ", "a", " a", "a ", "\n a \t b \r\n", "\u{2028}x\u{205F}", "é \u{1680}"] {
        assert_eq!(trim(s), s.trim());
    }
}

#[test]
fn join_writes_one_separator() {
    assert_eq!(join(Platform::Unix, "/proj/backend", "src"), "/proj/backend/src");
    assert_eq!(join(Platform::Unix, "/proj/backend/", "src"), "/proj/backend/src");
    assert_eq!(join(Platform::Unix, "", "src"), "src");
    assert_eq!(join(Platform::Unix, "/", "backend"), "/backend");
    assert_eq!(join(Platform::Windows, "C:\\app", "node.exe"), "C:\\app\\node.exe");
    assert_eq!(join(Platform::Windows, "C:\\app\\", "node.exe"), "C:\\app\\node.exe");
    assert_eq!(join(Platform::Windows, "C:/app/", "node.exe"), "C:/app/node.exe");
    assert_eq!(join(Platform::Unix, "dir\\", "x"), "dir\\/x");
}

#[test]
fn join_agrees_with_the_standard_library_on_relative_names() {
    for base in ["/opt/app", "/opt/app/", "", "rel", "/"] {
        let expected = std::path::Path::new(base).join("node");
        assert_eq!(join(Platform::Unix, base, "node"), expected.to_string_lossy());
    }
}

#[test]
fn parent_is_the_directory_above() {
    assert_eq!(parent(Platform::Unix, "/a/b"), Some("/a".to_string()));
    assert_eq!(parent(Platform::Unix, "/a/b/"), Some("/a".to_string()));
    assert_eq!(parent(Platform::Unix, "/a//b"), Some("/a".to_string()));
    assert_eq!(parent(Platform::Unix, "/a"), Some("/".to_string()));
    assert_eq!(parent(Platform::Unix, "a/b"), Some("a".to_string()));
    assert_eq!(parent(Platform::Unix, "a"), Some(String::new()));
    assert_eq!(parent(Platform::Unix, "a/"), Some(String::new()));
    assert_eq!(parent(Platform::Unix, "."), Some(String::new()));
    assert_eq!(parent(Platform::Unix, "/"), None);
    assert_eq!(parent(Platform::Unix, "//"), None);
    assert_eq!(parent(Platform::Unix, ""), None);
    assert_eq!(
        parent(Platform::Windows, "C:\\Users\\me\\AppData\\Roaming\\biome"),
        Some("C:\\Users\\me\\AppData\\Roaming".to_string())
    );
    assert_eq!(parent(Platform::Unix, "C:\\Users\\me"), Some(String::new()));
    assert_eq!(parent(Platform::Windows, "C:/Users\\me/"), Some("C:/Users".to_string()));
}

#[test]
fn parent_agrees_with_the_standard_library_on_plain_paths() {
    for p in ["/a/b", "/a/b/", "/a", "a/b", "/home/me/.local/share/biome", "a", "data", ".", "/", ""] {
        let expected = std::path::Path::new(p).parent().map(|d| d.to_string_lossy().into_owned());
        assert_eq!(parent(Platform::Unix, p), expected);
    }
}

#[test]
fn parent_or_same_falls_back_on_the_path() {
    assert_eq!(parent_or_same(Platform::Unix, "/data/app"), "/data");
    assert_eq!(parent_or_same(Platform::Unix, "app"), "");
    assert_eq!(parent_or_same(Platform::Unix, "/"), "/");
    assert_eq!(parent_or_same(Platform::Unix, ""), "");
}

#[test]
fn separators_by_platform() {
    assert!(Platform::Unix.is_separator('/'));
    assert!(!Platform::Unix.is_separator('\\'));
    assert!(Platform::Windows.is_separator('/'));
    assert!(Platform::Windows.is_separator('\\'));
    assert!(!Platform::Windows.is_separator(':'));
}
