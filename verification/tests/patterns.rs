use jonashietala::patterns::{
    frontmatter_series, frontmatter_tag, full_link_tag, img_link, inline_header_ref,
    inline_rel_link, link_def_header_ref, link_def_rel_link, open_bracket,
};
use regex::Regex;

fn chars(s: &str) -> Vec<char> {
    s.chars().collect()
}

/// Character offset of a byte offset of `s`.
fn char_pos(s: &str, byte: usize) -> usize {
    s[..byte].chars().count()
}

/// Every string of up to `len` characters over `alphabet`.
fn strings(alphabet: &[char], len: usize) -> Vec<String> {
    let mut all = vec![String::new()];
    let mut last = vec![String::new()];
    for _ in 0..len {
        let mut next = Vec::new();
        for s in &last {
            for c in alphabet {
                let mut t = s.clone();
                t.push(*c);
                next.push(t);
            }
        }
        all.extend(next.iter().cloned());
        last = next;
    }
    all
}

fn samples() -> Vec<String> {
    let mut v = strings(&['[', ']', '(', ')', '/', '#', '!', ':', ' ', 'a', '\n'], 5);
    v.extend(
        [
            "](/",
            "[tag]: /",
            "[tag]:  /blog/x#h",
            "[t]ag]: /a]: /b",
            "[a]: /x\n",
            "[a]:\n/x",
            "[a]:\u{3000}/x",
            "[a\nb]: /x",
            "text ](/a](/b",
            "x ![](img",
            "![](a) ![](b",
            "[some text][",
            "[a][b][c",
            "x [",
            "[",
            "tags = ",
            "tags: x",
            "series = ",
            "series: a",
            "seriess: ",
            "]: #",
            "[x]: #",
            "[x]:#",
        ]
        .iter()
        .map(|s| s.to_string()),
    );
    v
}

#[test]
fn shapes_agree_with_regular_expressions() {
    let img = Regex::new(r"!\[\]\([^)]*$").unwrap();
    let inline_rel = Regex::new(r"]\((/[^)]*)$").unwrap();
    let inline_header = Regex::new(r"]\(#[^)]*$").unwrap();
    let def_rel = Regex::new(r"^\[.+\]:\s+(/.*)$").unwrap();
    let def_header = Regex::new(r"^\[.+\]:\s+#").unwrap();
    let full_tag = Regex::new(r"\[[^\]]+\]\[[^\]]*$").unwrap();
    let fm_tag = Regex::new(r"^tags(:| =) ").unwrap();
    let fm_series = Regex::new(r"^series(:| =) ").unwrap();
    let open = Regex::new(r"\[[^\]]*$").unwrap();
    for s in samples() {
        let c = chars(&s);
        assert_eq!(img_link(&c), img.is_match(&s), "{s:?}");
        assert_eq!(
            inline_rel_link(&c),
            inline_rel.captures(&s).map(|caps| char_pos(&s, caps.get(1).unwrap().start())),
            "{s:?}"
        );
        assert_eq!(inline_header_ref(&c), inline_header.is_match(&s), "{s:?}");
        assert_eq!(
            link_def_rel_link(&c),
            def_rel.captures(&s).map(|caps| char_pos(&s, caps.get(1).unwrap().start())),
            "{s:?}"
        );
        assert_eq!(link_def_header_ref(&c), def_header.is_match(&s), "{s:?}");
        assert_eq!(full_link_tag(&c), full_tag.is_match(&s), "{s:?}");
        assert_eq!(frontmatter_tag(&c), fm_tag.is_match(&s), "{s:?}");
        assert_eq!(frontmatter_series(&c), fm_series.is_match(&s), "{s:?}");
        assert_eq!(
            open_bracket(&c),
            open.find(&s).map(|m| char_pos(&s, m.start())),
            "{s:?}"
        );
    }
}

#[test]
fn link_definition_capture_follows_the_last_definition_head() {
    let s = chars("[t]ag]: /a]: /b");
    // The capture starts at the `/b` after the last `]: `.
    assert_eq!(link_def_rel_link(&s), Some(13));
    assert_eq!(inline_rel_link(&chars("x](/a](/b")), Some(3));
    assert_eq!(open_bracket(&chars("a [b [c")), Some(2));
}
