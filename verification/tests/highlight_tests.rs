use mdpdf::render::markdown_to_html;

fn count_occurrences(hay: &str, needle: &str) -> usize {
    let mut n = 0;
    let mut at = 0;
    while let Some(i) = hay[at..].find(needle) {
        n += 1;
        at += i + needle.len();
    }
    n
}

fn code_container_content(doc: &str) -> String {
    let open = "<div class=\"code-block\"><pre><code>";
    let close = "</code></pre></div>";
    let start = doc.find(open).expect("code container present") + open.len();
    let end = doc[start..].find(close).expect("container closed") + start;
    doc[start..end].to_string()
}

fn destyled(fragment: &str) -> String {
    let mut text = String::new();
    let mut in_tag = false;
    for c in fragment.chars() {
        if in_tag {
            if c == '>' {
                in_tag = false;
            }
        } else if c == '<' {
            in_tag = true;
        } else {
            text.push(c);
        }
    }
    text.replace("&lt;", "<")
        .replace("&gt;", ">")
        .replace("&quot;", "\"")
        .replace("&#39;", "'")
        .replace("&amp;", "&")
}

#[test]
fn python_block_escapes_comparison() {
    let doc = markdown_to_html("```python\nx = 1 < 2\n```\n").unwrap();
    let content = code_container_content(&doc);
    assert!(content.contains("&lt;"));
    assert!(!content.contains("1 < 2"));
}

#[test]
fn unknown_language_falls_back_line_per_line() {
    let doc = markdown_to_html("```nosuchlanguagezz\nalpha\nbeta\ngamma\n```\n").unwrap();
    let content = code_container_content(&doc);
    // plain text styling: one styled fragment per input line, order kept
    assert_eq!(count_occurrences(&content, "</span>"), 3);
    let a = content.find("alpha").unwrap();
    let b = content.find("beta").unwrap();
    let c = content.find("gamma").unwrap();
    assert!(a < b && b < c);
}

#[test]
fn destyled_code_recovers_raw_text() {
    let raw = "let x = 1 < 2; // \"check\" & 'more'\nlet y = x;\n";
    let input = format!("```rust\n{}```\n", raw);
    let doc = markdown_to_html(&input).unwrap();
    let content = code_container_content(&doc);
    assert_eq!(destyled(&content), raw);
}

#[test]
fn no_background_styling_in_code_fragments() {
    let doc = markdown_to_html("```python\nx = 1\n```\n").unwrap();
    let content = code_container_content(&doc);
    assert!(!content.contains("background-color"));
}

#[test]
fn empty_hint_highlights_as_plain_text() {
    let doc = markdown_to_html("```\njust text\n```\n").unwrap();
    let content = code_container_content(&doc);
    assert_eq!(destyled(&content), "just text\n");
}
