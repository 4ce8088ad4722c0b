use mdpdf::escape::escape_html;

#[test]
fn escape_replaces_each_special() {
    assert_eq!(escape_html("a&b"), "a&amp;b");
    assert_eq!(escape_html("a<b"), "a&lt;b");
    assert_eq!(escape_html("a>b"), "a&gt;b");
    assert_eq!(escape_html("a\"b"), "a&quot;b");
    assert_eq!(escape_html("a'b"), "a&#39;b");
}

#[test]
fn escape_fixed_order_all_specials() {
    assert_eq!(escape_html("&<>\"'"), "&amp;&lt;&gt;&quot;&#39;");
}

#[test]
fn escape_leaves_no_raw_special() {
    let r = escape_html("x < y & z > \"w\" 'v'");
    assert!(!r.contains('<'));
    assert!(!r.contains('>'));
    assert!(!r.contains('"'));
    assert!(!r.contains('\''));
    assert_eq!(r, "x &lt; y &amp; z &gt; &quot;w&quot; &#39;v&#39;");
}

#[test]
fn escape_is_single_pass_no_correction() {
    // already-escaped text is escaped again, never "fixed"
    assert_eq!(escape_html("&amp;"), "&amp;amp;");
}

#[test]
fn escape_empty_and_plain() {
    assert_eq!(escape_html(""), "");
    assert_eq!(escape_html("plain text 123"), "plain text 123");
}
