use mdpdf::events::{MdEvent, MdTag};
use mdpdf::render::{markdown_to_html, render_events};
use mdpdf::template::get_html_template;

#[test]
fn template_is_the_document_prefix() {
    let doc = render_events(&vec![]).unwrap();
    let tpl = get_html_template();
    assert!(tpl.contains("<!DOCTYPE html>"));
    assert!(doc.starts_with(tpl.as_str()));
    assert!(doc.ends_with("<body><div class=\"container\"></div></body></html>"));
}

#[test]
fn heading_pair_same_level() {
    let events = vec![
        MdEvent::Start(MdTag::Heading(2)),
        MdEvent::Text("Hi".to_string()),
        MdEvent::End(MdTag::Heading(2)),
    ];
    let doc = render_events(&events).unwrap();
    assert!(doc.contains("<h2>Hi</h2>"));
}

#[test]
fn all_heading_levels_render() {
    for level in 1u8..=6u8 {
        let events = vec![
            MdEvent::Start(MdTag::Heading(level)),
            MdEvent::Text("t".to_string()),
            MdEvent::End(MdTag::Heading(level)),
        ];
        let doc = render_events(&events).unwrap();
        let expected = format!("<h{}>t</h{}>", level, level);
        assert!(doc.contains(&expected));
    }
}

#[test]
fn text_outside_code_is_escaped() {
    let events = vec![
        MdEvent::Start(MdTag::Paragraph),
        MdEvent::Text("1 < 2 & 3".to_string()),
        MdEvent::End(MdTag::Paragraph),
    ];
    let doc = render_events(&events).unwrap();
    assert!(doc.contains("<p>1 &lt; 2 &amp; 3</p>"));
}

#[test]
fn inline_code_span_is_escaped_not_highlighted() {
    let events = vec![MdEvent::CodeSpan("a<b".to_string())];
    let doc = render_events(&events).unwrap();
    assert!(doc.contains("<code class=\"inline-code\">a&lt;b</code>"));
}

#[test]
fn link_title_is_escaped_href_is_raw() {
    let events = vec![
        MdEvent::Start(MdTag::Link("http://x/y?a=1&b=2".to_string(), "it's".to_string())),
        MdEvent::Text("go".to_string()),
        MdEvent::End(MdTag::Link(String::new(), String::new())),
    ];
    let doc = render_events(&events).unwrap();
    assert!(doc.contains("<a href=\"http://x/y?a=1&b=2\" title=\"it&#39;s\">go</a>"));
}

#[test]
fn image_is_self_closing_with_escaped_alt() {
    let events = vec![
        MdEvent::Start(MdTag::Image("pic.png".to_string(), "a \"b\"".to_string())),
    ];
    let doc = render_events(&events).unwrap();
    assert!(doc.contains("<img src=\"pic.png\" alt=\"a &quot;b&quot;\" />"));
}

#[test]
fn lists_items_and_quotes_render() {
    let events = vec![
        MdEvent::Start(MdTag::List(false)),
        MdEvent::Start(MdTag::Item),
        MdEvent::Text("a".to_string()),
        MdEvent::End(MdTag::Item),
        MdEvent::End(MdTag::List(false)),
        MdEvent::Start(MdTag::List(true)),
        MdEvent::Start(MdTag::Item),
        MdEvent::Text("b".to_string()),
        MdEvent::End(MdTag::Item),
        MdEvent::End(MdTag::List(true)),
        MdEvent::Start(MdTag::BlockQuote),
        MdEvent::Text("q".to_string()),
        MdEvent::End(MdTag::BlockQuote),
    ];
    let doc = render_events(&events).unwrap();
    assert!(doc.contains("<ul><li>a</li></ul>"));
    assert!(doc.contains("<ol><li>b</li></ol>"));
    assert!(doc.contains("<blockquote>q</blockquote>"));
}

#[test]
fn table_breaks_and_rule_render() {
    let events = vec![
        MdEvent::Start(MdTag::Table),
        MdEvent::Start(MdTag::TableHead),
        MdEvent::Start(MdTag::TableCell),
        MdEvent::Text("h".to_string()),
        MdEvent::End(MdTag::TableCell),
        MdEvent::End(MdTag::TableHead),
        MdEvent::Start(MdTag::TableRow),
        MdEvent::Start(MdTag::TableCell),
        MdEvent::Text("c".to_string()),
        MdEvent::End(MdTag::TableCell),
        MdEvent::End(MdTag::TableRow),
        MdEvent::End(MdTag::Table),
        MdEvent::Text("x".to_string()),
        MdEvent::HardBreak,
        MdEvent::Text("y".to_string()),
        MdEvent::SoftBreak,
        MdEvent::Text("z".to_string()),
        MdEvent::Rule,
    ];
    let doc = render_events(&events).unwrap();
    assert!(doc.contains("<table><thead><td>h</td></thead><tr><td>c</td></tr></table>"));
    assert!(doc.contains("x<br />y z<hr />"));
}

#[test]
fn uncovered_events_render_to_nothing() {
    let with = render_events(&vec![
        MdEvent::Start(MdTag::Paragraph),
        MdEvent::Other,
        MdEvent::Start(MdTag::Other),
        MdEvent::End(MdTag::Other),
        MdEvent::End(MdTag::Paragraph),
    ])
        .unwrap();
    let without = render_events(&vec![
        MdEvent::Start(MdTag::Paragraph),
        MdEvent::End(MdTag::Paragraph),
    ])
        .unwrap();
    assert_eq!(with, without);
}

#[test]
fn heading_level_outside_range_renders_nothing() {
    let with = render_events(&vec![
        MdEvent::Start(MdTag::Heading(7)),
        MdEvent::Text("t".to_string()),
        MdEvent::End(MdTag::Heading(7)),
    ])
        .unwrap();
    let without = render_events(&vec![MdEvent::Text("t".to_string())]).unwrap();
    assert_eq!(with, without);
}

#[test]
fn scenario_title_and_emphasis() {
    let doc = markdown_to_html("# Title\n\nHello *world*.").unwrap();
    assert!(doc.contains("<h1>Title</h1>"));
    assert!(doc.contains("<p>Hello <em>world</em>.</p>"));
}

#[test]
fn strong_text_renders() {
    let doc = markdown_to_html("**bold** move").unwrap();
    assert!(doc.contains("<p><strong>bold</strong> move</p>"));
}
