use hyped::escape;

#[test]
fn escape_empty_returns_empty() {
    assert_eq!(escape(""), "");
}

#[test]
fn escape_safe_text_unchanged() {
    assert_eq!(escape("plain text, no entities!"), "plain text, no entities!");
}

#[test]
fn escape_replaces_all_five_reserved_characters() {
    assert_eq!(escape("&<>\"'"), "&amp;&lt;&gt;&quot;&#39;");
}

#[test]
fn escape_is_single_pass_not_idempotent() {
    let once = escape("&");
    assert_eq!(once, "&amp;");
    assert_eq!(escape(&once), "&amp;amp;");
}

#[test]
fn escape_keeps_surrounding_text() {
    assert_eq!(escape("a < b & c"), "a &lt; b &amp; c");
}

#[test]
fn escape_handles_multibyte_characters() {
    assert_eq!(escape("héllo <wörld>"), "héllo &lt;wörld&gt;");
}
