use daox_models::env_file::parse_env_line;

fn setting(k: &str, v: &str) -> Option<(String, String)> {
    Some((k.to_string(), v.to_string()))
}

#[test]
fn settings_are_trimmed_and_unquoted() {
    assert_eq!(parse_env_line("DATABASE_URL_PG=postgres://u@h/db"), setting("DATABASE_URL_PG", "postgres://u@h/db"));
    assert_eq!(parse_env_line("  KEY =  \"quoted value\"  "), setting("KEY", "quoted value"));
    assert_eq!(parse_env_line("A=b=c"), setting("A", "b=c"));
    assert_eq!(parse_env_line("EMPTY="), setting("EMPTY", ""));
    assert_eq!(parse_env_line("Q=\"\"\""), setting("Q", ""));
    assert_eq!(parse_env_line("\u{3000}K\u{a0}=\tv\u{2003}"), setting("K", "v"));
}

#[test]
fn blank_comment_and_bare_lines_hold_nothing() {
    assert_eq!(parse_env_line(""), None);
    assert_eq!(parse_env_line("   \t "), None);
    assert_eq!(parse_env_line("# KEY=value"), None);
    assert_eq!(parse_env_line("   #KEY=value"), None);
    assert_eq!(parse_env_line("NO_EQUALS_SIGN"), None);
}

#[test]
fn settings_match_the_standard_trims() {
    for line in ["  a = b ", "x=\"y\"", "=v", " k=\" spaced \" ", "é=ü", "\u{85}z=1\u{85}"] {
        let t = line.trim();
        let expected = if t.is_empty() || t.starts_with('#') {
            None
        } else {
            t.split_once('=').map(|(k, v)| (k.trim().to_string(), v.trim().trim_matches('"').to_string()))
        };
        assert_eq!(parse_env_line(line), expected);
    }
}
