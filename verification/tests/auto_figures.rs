use jonashietala::auto_figures::{parse_attrs, AutoFigures, Event, Tag};

fn image(dest: &str, title: &str) -> Tag {
    Tag::Image { dest: dest.into(), title: title.into() }
}

fn run(events: Vec<Event>) -> Vec<String> {
    let mut figures = AutoFigures::new(events);
    let mut out = Vec::new();
    while let Some(e) = figures.next() {
        out.push(format!("{e:?}"));
    }
    out
}

fn html(s: &str) -> String {
    format!("{:?}", Event::Html(s.into()))
}

#[test]
fn test_auto_figures() {
    // The events of `![](/images/img.png)`.
    let events = vec![
        Event::Start(Tag::Paragraph),
        Event::Start(image("/images/img.png", "")),
        Event::End(image("/images/img.png", "")),
        Event::End(Tag::Paragraph),
    ];
    assert_eq!(
        run(events),
        vec![html(
            r#"<figure>
<img src="/images/img.png" />
</figure>"#
        )]
    );
}

#[test]
fn captions_titles_and_sizes() {
    let events = vec![
        Event::Text("before".into()),
        Event::Start(Tag::Paragraph),
        Event::Start(image("/a.png", "A title")),
        Event::Text("My ".into()),
        Event::Start(Tag::Emphasis),
        Event::Text("<title>".into()),
        Event::End(Tag::Emphasis),
        Event::End(image("/a.png", "A title")),
        Event::Text("{ width=600px height=1 width=700px }".into()),
        Event::End(Tag::Paragraph),
        Event::Text("after".into()),
    ];
    assert_eq!(
        run(events),
        vec![
            format!("{:?}", Event::Text("before".into())),
            html(
                "<figure>\n<img src=\"/a.png\" title=\"A title\" width=\"700px\" height=\"1\" />\n<figcaption>My <em>&lt;title&gt;</em></figcaption>\n</figure>"
            ),
            format!("{:?}", Event::Text("after".into())),
        ]
    );
}

#[test]
fn paragraphs_with_more_than_an_image_pass() {
    let events = vec![
        Event::Start(Tag::Paragraph),
        Event::Start(image("/a.png", "")),
        Event::End(image("/a.png", "")),
        Event::Text("not attributes".into()),
        Event::End(Tag::Paragraph),
        Event::Start(Tag::Paragraph),
        Event::Text("text".into()),
        Event::End(Tag::Paragraph),
    ];
    let expected: Vec<String> = vec![
        Event::Start(Tag::Paragraph),
        Event::Start(image("/a.png", "")),
        Event::End(image("/a.png", "")),
        Event::Text("not attributes".into()),
        Event::End(Tag::Paragraph),
        Event::Start(Tag::Paragraph),
        Event::Text("text".into()),
        Event::End(Tag::Paragraph),
    ]
    .iter()
    .map(|e| format!("{e:?}"))
    .collect();
    assert_eq!(run(events), expected);
}

#[test]
fn an_unfinished_image_ends_the_events() {
    let events = vec![
        Event::Start(Tag::Paragraph),
        Event::Start(image("/a.png", "")),
        Event::Text("caption".into()),
    ];
    assert!(run(events).is_empty());
}

#[test]
fn attribute_blocks() {
    let a = parse_attrs("{ width=600px  height=2 }").unwrap();
    assert_eq!(
        a.key_value,
        vec![("width".to_string(), "600px".to_string()), ("height".to_string(), "2".to_string())]
    );
    assert_eq!(parse_attrs("{}").unwrap().key_value, vec![]);
    assert!(parse_attrs("{ =x }").is_none());
    assert!(parse_attrs("{ width }").is_none());
    assert!(parse_attrs("width=1").is_none());
    let a = parse_attrs("{a=b=c}").unwrap();
    assert_eq!(a.key_value, vec![("a".to_string(), "b=c".to_string())]);
}

#[test]
fn events_without_figures_pass_unchanged() {
    let events = || {
        vec![
            Event::Html("<hr>".into()),
            Event::Start(Tag::Paragraph),
            Event::Start(Tag::Strong),
            Event::Text("bold".into()),
            Event::End(Tag::Strong),
            Event::Start(image("/b.png", "")),
            Event::End(image("/b.png", "")),
            Event::End(Tag::Paragraph),
            Event::Start(Tag::Paragraph),
            Event::Start(image("/c.png", "t")),
            Event::End(image("/c.png", "t")),
            Event::Text("{ width=1 }".into()),
            Event::SoftBreak,
            Event::End(Tag::Paragraph),
            Event::Code("x".into()),
        ]
    };
    let expected: Vec<String> = events().iter().map(|e| format!("{e:?}")).collect();
    assert_eq!(run(events()), expected);
}
