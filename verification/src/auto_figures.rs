//! Turns a paragraph that holds a single image into a figure.
//!
//! The markup parser's events are read in order; a paragraph whose first
//! event is an image, and which after the image's end holds nothing or only
//! an attribute block such as `{ width=600px }`, becomes one HTML event: a
//! `<figure>` with the image, its size attributes and, where the image has a
//! description, a caption. Every other event passes unchanged.
use crate::text::{chars_of, push_char, push_chars};
use vstd::prelude::*;

verus! {

/// A container of the markup.
#[derive(Debug)]
pub enum Tag {
    Paragraph,
    Image { dest: String, title: String },
    Emphasis,
    Strong,
}

/// An event of the markup parser.
#[derive(Debug)]
pub enum Event {
    Start(Tag),
    End(Tag),
    Text(String),
    Code(String),
    Html(String),
    SoftBreak,
    HardBreak,
}

pub enum SpecTag {
    Paragraph,
    Image { dest: Seq<char>, title: Seq<char> },
    Emphasis,
    Strong,
}

pub enum SpecEvent {
    Start(SpecTag),
    End(SpecTag),
    Text(Seq<char>),
    Code(Seq<char>),
    Html(Seq<char>),
    SoftBreak,
    HardBreak,
}

impl View for Tag {
    type V = SpecTag;

    open spec fn view(&self) -> SpecTag {
        match self {
            Tag::Paragraph => SpecTag::Paragraph,
            Tag::Image { dest, title } => SpecTag::Image { dest: dest@, title: title@ },
            Tag::Emphasis => SpecTag::Emphasis,
            Tag::Strong => SpecTag::Strong,
        }
    }
}

impl View for Event {
    type V = SpecEvent;

    open spec fn view(&self) -> SpecEvent {
        match self {
            Event::Start(t) => SpecEvent::Start(t@),
            Event::End(t) => SpecEvent::End(t@),
            Event::Text(s) => SpecEvent::Text(s@),
            Event::Code(s) => SpecEvent::Code(s@),
            Event::Html(s) => SpecEvent::Html(s@),
            Event::SoftBreak => SpecEvent::SoftBreak,
            Event::HardBreak => SpecEvent::HardBreak,
        }
    }
}

pub open spec fn events_view(events: Seq<Event>) -> Seq<SpecEvent> {
    events.map_values(|e: Event| e@)
}

/// Attributes of an element, in the order written.
pub struct Attrs {
    pub key_value: Vec<(String, String)>,
}

// ---- Attribute blocks -------------------------------------------------------

/// Where the run of characters other than spaces that starts at `i` ends.
pub open spec fn word_end(s: Seq<char>, i: int) -> int
    decreases s.len() - i,
{
    if 0 <= i < s.len() && s[i] != ' ' {
        word_end(s, i + 1)
    } else {
        i
    }
}

/// The words of `s` from position `i` on: its runs of characters other than
/// spaces.
pub open spec fn words_from(s: Seq<char>, i: int) -> Seq<Seq<char>>
    decreases s.len() - i, 1int,
{
    if i < 0 || i >= s.len() {
        seq![]
    } else if s[i] == ' ' {
        words_from(s, i + 1)
    } else {
        let j = word_end(s, i);
        if j <= i || j > s.len() {
            seq![]
        } else {
            seq![s.subrange(i, j)] + words_from(s, j)
        }
    }
}

/// A word `key=value` split at its first `=`, where the key is not empty.
pub open spec fn key_value_of(w: Seq<char>) -> Option<(Seq<char>, Seq<char>)> {
    if exists|k: int| 0 < k < w.len() && w[k] == '=' && forall|j: int| 0 <= j < k ==> w[j] != '=' {
        let k = choose|k: int|
            0 < k < w.len() && w[k] == '=' && forall|j: int| 0 <= j < k ==> w[j] != '=';
        Some((w.take(k), w.skip(k + 1)))
    } else {
        None
    }
}

/// Whether every word is a `key=value`.
pub open spec fn all_key_values(words: Seq<Seq<char>>) -> bool {
    forall|i: int| 0 <= i < words.len() ==> (#[trigger] key_value_of(words[i])) is Some
}

/// The attributes of an attribute block `{ key=value ... }`: `{`, words
/// `key=value` separated by spaces, `}`.
pub open spec fn attrs_of(text: Seq<char>) -> Option<Seq<(Seq<char>, Seq<char>)>> {
    if text.len() >= 2 && text[0] == '{' && text.last() == '}' && all_key_values(
        words_from(text.subrange(1, text.len() - 1), 0),
    ) {
        Some(words_from(text.subrange(1, text.len() - 1), 0).map_values(|w: Seq<char>| key_value_of(w)->0))
    } else {
        None
    }
}

/// The value of the last attribute named `key`.
pub open spec fn attr_value(attrs: Seq<(Seq<char>, Seq<char>)>, key: Seq<char>) -> Option<Seq<char>>
    decreases attrs.len(),
{
    if attrs.len() == 0 {
        None
    } else if attrs.last().0 == key {
        Some(attrs.last().1)
    } else {
        attr_value(attrs.drop_last(), key)
    }
}

pub open spec fn attrs_view(attrs: Seq<(String, String)>) -> Seq<(Seq<char>, Seq<char>)> {
    attrs.map_values(|kv: (String, String)| (kv.0@, kv.1@))
}

proof fn lemma_word_end(s: Seq<char>, i: int)
    requires
        0 <= i <= s.len(),
    ensures
        i <= word_end(s, i) <= s.len(),
        forall|j: int| i <= j < word_end(s, i) ==> s[j] != ' ',
        word_end(s, i) < s.len() ==> s[word_end(s, i)] == ' ',
    decreases s.len() - i,
{
    if i < s.len() && s[i] != ' ' {
        lemma_word_end(s, i + 1);
    }
}

/// A `String` of the characters `s[from..to]`.
fn string_of(s: &[char], from: usize, to: usize) -> (res: String)
    requires
        from <= to <= s@.len(),
    ensures
        res@ == s@.subrange(from as int, to as int),
{
    let mut res = String::new();
    push_chars(&mut res, s.split_at(to).0.split_at(from).1);
    assert(s@.subrange(0, to as int).subrange(from as int, to as int) =~= s@.subrange(
        from as int,
        to as int,
    ));
    res
}

/// The word `w` split at its first `=`, if the key before it is not empty.
fn split_key_value(w: &[char]) -> (res: Option<(String, String)>)
    ensures
        match key_value_of(w@) {
            Some(kv) => res matches Some(r) && r.0@ == kv.0 && r.1@ == kv.1,
            None => res is None,
        },
{
    let mut k: usize = 0;
    while k < w.len() && w[k] != '='
        invariant
            k <= w@.len(),
            forall|j: int| 0 <= j < k ==> w@[j] != '=',
        decreases w@.len() - k,
    {
        k = k + 1;
    }
    if k == 0 || k >= w.len() {
        assert(key_value_of(w@) is None) by {
            if exists|k2: int|
                0 < k2 < w@.len() && w@[k2] == '=' && forall|j: int| 0 <= j < k2 ==> w@[j] != '=' {
                let k2 = choose|k2: int|
                    0 < k2 < w@.len() && w@[k2] == '=' && forall|j: int|
                        0 <= j < k2 ==> w@[j] != '=';
                if k == 0 {
                    assert(w@[0] == '=');
                }
            }
        }
        return None;
    }
    let ghost c = choose|c: int|
        0 < c < w@.len() && w@[c] == '=' && forall|j: int| 0 <= j < c ==> w@[j] != '=';
    assert(c == k) by {
        if c < k {
        } else if c > k {
            assert(w@[k as int] == '=');
        }
    }
    let key = string_of(w, 0, k);
    let value = string_of(w, k + 1, w.len());
    assert(w@.subrange(0, k as int) =~= w@.take(k as int));
    assert(w@.subrange(k + 1, w@.len() as int) =~= w@.skip(k + 1));
    Some((key, value))
}

/// The attributes of an attribute block `{ key=value ... }`.
pub fn parse_attrs(text: &str) -> (res: Option<Attrs>)
    ensures
        match attrs_of(text@) {
            Some(a) => res matches Some(r) && attrs_view(r.key_value@) == a,
            None => res is None,
        },
{
    let t = chars_of(text);
    if t.len() < 2 || t[0] != '{' || t[t.len() - 1] != '}' {
        return None;
    }
    let inner = t.split_at(t.len() - 1).0.split_at(1).1;
    let ghost s = inner@;
    assert(s =~= text@.subrange(1, text@.len() - 1));
    let ghost ws = words_from(s, 0);
    let mut kvs: Vec<(String, String)> = Vec::new();
    let ghost mut done: Seq<Seq<char>> = seq![];
    let mut i: usize = 0;
    while i < inner.len()
        invariant
            s == inner@,
            text@.len() >= 2,
            text@[0] == '{',
            text@.last() == '}',
            s == text@.subrange(1, text@.len() - 1),
            ws == words_from(s, 0),
            i <= s.len(),
            done + words_from(s, i as int) == ws,
            all_key_values(done),
            attrs_view(kvs@) == done.map_values(|w: Seq<char>| key_value_of(w)->0),
        decreases s.len() - i,
    {
        if inner[i] == ' ' {
            i = i + 1;
        } else {
            let mut j = i;
            while j < inner.len() && inner[j] != ' '
                invariant
                    s == inner@,
                    i <= j <= s.len(),
                    forall|t2: int| i <= t2 < j ==> s[t2] != ' ',
                decreases s.len() - j,
            {
                j = j + 1;
            }
            proof {
                lemma_word_end(s, i as int);
                lemma_word_end_at(s, i as int, j as int);
            }
            let word = inner.split_at(j).0.split_at(i).1;
            assert(word@ =~= s.subrange(i as int, j as int));
            match split_key_value(word) {
                Some(kv) => {
                    let ghost before = attrs_view(kvs@);
                    kvs.push(kv);
                    proof {
                        let w = s.subrange(i as int, j as int);
                        assert(attrs_view(kvs@) =~= before.push((kv.0@, kv.1@)));
                        assert((done + seq![w]).map_values(|w: Seq<char>| key_value_of(w)->0)
                            =~= done.map_values(|w: Seq<char>| key_value_of(w)->0).push(
                            key_value_of(w)->0,
                        ));
                        assert(done + seq![w] + words_from(s, j as int) =~= done + (seq![w]
                            + words_from(s, j as int)));
                        done = done + seq![w];
                    }
                    i = j;
                },
                None => {
                    assert(!all_key_values(ws)) by {
                        let w = s.subrange(i as int, j as int);
                        assert(words_from(s, i as int) == seq![w] + words_from(s, j as int));
                        assert(ws[done.len() as int] == w);
                    }
                    assert(attrs_of(text@) is None);
                    return None;
                },
            }
        }
    }
    assert(done =~= ws);
    Some(Attrs { key_value: kvs })
}

proof fn lemma_word_end_at(s: Seq<char>, i: int, j: int)
    requires
        0 <= i <= j <= s.len(),
        forall|t: int| i <= t < j ==> s[t] != ' ',
        j == s.len() || s[j] == ' ',
    ensures
        word_end(s, i) == j,
    decreases j - i,
{
    if i < j {
        lemma_word_end_at(s, i + 1, j);
    }
}

/// The value of the last attribute named `key`.
fn get_attr(attrs: &Attrs, key: &str) -> (res: Option<String>)
    ensures
        res.deep_view() == attr_value(attrs_view(attrs.key_value@), key@),
{
    let wanted = chars_of(key);
    let mut i = attrs.key_value.len();
    assert(attrs.key_value@.take(i as int) =~= attrs.key_value@);
    while i > 0
        invariant
            i <= attrs.key_value@.len(),
            wanted@ == key@,
            attr_value(attrs_view(attrs.key_value@), key@) == attr_value(
                attrs_view(attrs.key_value@.take(i as int)),
                key@,
            ),
        decreases i,
    {
        let ghost prefix = attrs_view(attrs.key_value@.take(i as int));
        assert(prefix.drop_last() =~= attrs_view(attrs.key_value@.take(i - 1)));
        i = i - 1;
        let have = chars_of(attrs.key_value[i].0.as_str());
        if crate::text::same_chars(have.as_slice(), wanted.as_slice()) {
            return Some(attrs.key_value[i].1.clone());
        }
    }
    None
}

// ---- Rendering --------------------------------------------------------------

/// A character as HTML text.
pub open spec fn escaped_char(c: char) -> Seq<char> {
    if c == '&' {
        "&amp;"@
    } else if c == '<' {
        "&lt;"@
    } else if c == '>' {
        "&gt;"@
    } else if c == '"' {
        "&quot;"@
    } else {
        seq![c]
    }
}

/// Text as HTML text.
pub open spec fn escaped(s: Seq<char>) -> Seq<char>
    decreases s.len(),
{
    if s.len() == 0 {
        seq![]
    } else {
        escaped(s.drop_last()) + escaped_char(s.last())
    }
}

/// The HTML of one event of a caption.
pub open spec fn event_html(e: SpecEvent) -> Seq<char> {
    match e {
        SpecEvent::Text(t) => escaped(t),
        SpecEvent::Code(c) => "<code>"@ + escaped(c) + "</code>"@,
        SpecEvent::Html(h) => h,
        SpecEvent::SoftBreak => seq!['\n'],
        SpecEvent::HardBreak => "<br />\n"@,
        SpecEvent::Start(SpecTag::Paragraph) => "<p>"@,
        SpecEvent::End(SpecTag::Paragraph) => "</p>\n"@,
        SpecEvent::Start(SpecTag::Emphasis) => "<em>"@,
        SpecEvent::End(SpecTag::Emphasis) => "</em>"@,
        SpecEvent::Start(SpecTag::Strong) => "<strong>"@,
        SpecEvent::End(SpecTag::Strong) => "</strong>"@,
        SpecEvent::Start(SpecTag::Image { .. }) => seq![],
        SpecEvent::End(SpecTag::Image { .. }) => seq![],
    }
}

/// The HTML of the events of a caption, one after the other.
pub open spec fn events_html(events: Seq<SpecEvent>) -> Seq<char>
    decreases events.len(),
{
    if events.len() == 0 {
        seq![]
    } else {
        events_html(events.drop_last()) + event_html(events.last())
    }
}

/// ` name="value"`, where there is a value.
pub open spec fn optional_attr(name: Seq<char>, value: Option<Seq<char>>) -> Seq<char> {
    match value {
        Some(v) => seq![' '] + name + "=\""@ + v + seq!['"'],
        None => seq![],
    }
}

/// A figure holding the image `src`, with its title, size and caption.
pub open spec fn figure_html(
    src: Seq<char>,
    title: Seq<char>,
    width: Option<Seq<char>>,
    height: Option<Seq<char>>,
    caption: Seq<char>,
) -> Seq<char> {
    "<figure>\n<img src=\""@ + src + seq!['"'] + (if title.len() > 0 {
        optional_attr("title"@, Some(title))
    } else {
        seq![]
    }) + optional_attr("width"@, width) + optional_attr("height"@, height) + " />\n"@ + (
    if caption.len() > 0 {
        "<figcaption>"@ + caption + "</figcaption>\n"@
    } else {
        seq![]
    }) + "</figure>"@
}

/// Appends `s` as HTML text.
fn push_escaped(res: &mut String, s: &str)
    ensures
        final(res)@ == old(res)@ + escaped(s@),
{
    let chars = chars_of(s);
    for i in 0..chars.len()
        invariant
            chars@ == s@,
            res@ == old(res)@ + escaped(chars@.take(i as int)),
    {
        let c = chars[i];
        assert(chars@.take(i + 1).drop_last() =~= chars@.take(i as int));
        let ghost before = res@;
        if c == '&' {
            res.append("&amp;");
        } else if c == '<' {
            res.append("&lt;");
        } else if c == '>' {
            res.append("&gt;");
        } else if c == '"' {
            res.append("&quot;");
        } else {
            push_char(res, c);
        }
        assert(res@ =~= before + escaped_char(c));
    }
    assert(chars@.take(chars@.len() as int) =~= chars@);
}

/// Appends the HTML of one event of a caption.
fn push_event_html(res: &mut String, e: &Event)
    ensures
        final(res)@ == old(res)@ + event_html(e@),
{
    match e {
        Event::Text(t) => push_escaped(res, t.as_str()),
        Event::Code(c) => {
            res.append("<code>");
            push_escaped(res, c.as_str());
            res.append("</code>");
        },
        Event::Html(h) => res.append(h.as_str()),
        Event::SoftBreak => push_char(res, '\n'),
        Event::HardBreak => res.append("<br />\n"),
        Event::Start(Tag::Paragraph) => res.append("<p>"),
        Event::End(Tag::Paragraph) => res.append("</p>\n"),
        Event::Start(Tag::Emphasis) => res.append("<em>"),
        Event::End(Tag::Emphasis) => res.append("</em>"),
        Event::Start(Tag::Strong) => res.append("<strong>"),
        Event::End(Tag::Strong) => res.append("</strong>"),
        Event::Start(Tag::Image { .. }) => {},
        Event::End(Tag::Image { .. }) => {},
    }
    assert(res@ =~= old(res)@ + event_html(e@));
}

/// The HTML of the events `events[from..to]`.
fn caption_html(events: &Vec<Event>, from: usize, to: usize) -> (res: String)
    requires
        from <= to <= events@.len(),
    ensures
        res@ == events_html(events_view(events@).subrange(from as int, to as int)),
{
    let mut res = String::new();
    let ghost ev = events_view(events@);
    for i in from..to
        invariant
            from <= to <= events@.len(),
            ev == events_view(events@),
            res@ == events_html(ev.subrange(from as int, i as int)),
    {
        assert(ev.subrange(from as int, i + 1).drop_last() =~= ev.subrange(from as int, i as int));
        push_event_html(&mut res, &events[i]);
    }
    res
}

/// Appends ` name="value"` where there is a value.
fn push_optional_attr(res: &mut String, name: &str, value: &Option<String>)
    ensures
        final(res)@ == old(res)@ + optional_attr(name@, value.deep_view()),
{
    match value {
        Some(v) => {
            push_char(res, ' ');
            res.append(name);
            res.append("=\"");
            res.append(v.as_str());
            push_char(res, '"');
            assert(res@ =~= old(res)@ + optional_attr(name@, value.deep_view()));
        },
        None => {
            assert(res@ =~= old(res)@ + optional_attr(name@, value.deep_view()));
        },
    }
}

/// The HTML of a figure.
fn render_figure(
    src: &str,
    title: &str,
    width: &Option<String>,
    height: &Option<String>,
    caption: &str,
) -> (res: String)
    ensures
        res@ == figure_html(src@, title@, width.deep_view(), height.deep_view(), caption@),
{
    let mut res = String::new();
    res.append("<figure>\n<img src=\"");
    res.append(src);
    push_char(&mut res, '"');
    let ghost head = res@;
    if !title.is_empty() {
        let t = Some(title.to_owned());
        push_optional_attr(&mut res, "title", &t);
    }
    assert(res@ =~= head + (if title@.len() > 0 {
        optional_attr("title"@, Some(title@))
    } else {
        seq![]
    }));
    push_optional_attr(&mut res, "width", width);
    push_optional_attr(&mut res, "height", height);
    res.append(" />\n");
    let ghost mid = res@;
    if !caption.is_empty() {
        res.append("<figcaption>");
        res.append(caption);
        res.append("</figcaption>\n");
    }
    assert(res@ =~= mid + (if caption@.len() > 0 {
        "<figcaption>"@ + caption@ + "</figcaption>\n"@
    } else {
        seq![]
    }));
    res.append("</figure>");
    assert(res@ =~= figure_html(src@, title@, width.deep_view(), height.deep_view(), caption@));
    res
}

// ---- The transformation -------------------------------------------------------

pub open spec fn is_start_paragraph(e: SpecEvent) -> bool {
    e matches SpecEvent::Start(SpecTag::Paragraph)
}

pub open spec fn is_end_paragraph(e: SpecEvent) -> bool {
    e matches SpecEvent::End(SpecTag::Paragraph)
}

pub open spec fn is_start_image(e: SpecEvent) -> bool {
    e matches SpecEvent::Start(SpecTag::Image { .. })
}

pub open spec fn is_end_image(e: SpecEvent) -> bool {
    e matches SpecEvent::End(SpecTag::Image { .. })
}

/// The first image end at or after `from`.
pub open spec fn image_end(ev: Seq<SpecEvent>, from: int) -> Option<int> {
    if exists|e: int| from <= e < ev.len() && is_end_image(ev[e]) {
        Some(
            choose|e: int|
                from <= e < ev.len() && is_end_image(ev[e]) && forall|k: int|
                    from <= k < e ==> !is_end_image(ev[k]),
        )
    } else {
        None
    }
}

/// Whether `text` is braced like an attribute block, `{` ... `}`, but is not
/// one: some word in it is not a `key=value`.
pub open spec fn malformed_attrs(text: Seq<char>) -> bool {
    text.len() >= 2 && text[0] == '{' && text.last() == '}' && attrs_of(text) is None
}

/// Whether the step at `p` reads a malformed attribute block: an image starts
/// the paragraph at `p`, and text right after the image's first end is a
/// malformed attribute block.
pub open spec fn step_reads_malformed_attrs(ev: Seq<SpecEvent>, p: int) -> bool {
    &&& 0 <= p
    &&& p + 1 < ev.len()
    &&& is_start_paragraph(ev[p])
    &&& is_start_image(ev[p + 1])
    &&& image_end(ev, p + 2) matches Some(e) && e + 1 < ev.len() && (ev[e + 1] matches SpecEvent::Text(
        t,
    ) && malformed_attrs(t))
}

/// The figure made of the image that starts at `p + 1` and ends at `e`,
/// with the attributes `attrs`.
pub open spec fn figure_of(ev: Seq<SpecEvent>, p: int, e: int, attrs: Seq<(Seq<char>, Seq<char>)>) -> SpecEvent {
    match ev[p + 1] {
        SpecEvent::Start(SpecTag::Image { dest, title }) => SpecEvent::Html(
            figure_html(
                dest,
                title,
                attr_value(attrs, "width"@),
                attr_value(attrs, "height"@),
                events_html(ev.subrange(p + 2, e)),
            ),
        ),
        _ => SpecEvent::Html(seq![]),
    }
}

/// What one step of the transformation does at position `p` of the events.
pub enum Step {
    /// It yields an event and moves to a position.
    Emit(SpecEvent, int),
    /// It yields nothing and moves to a position.
    Stop(int),
}

/// One step of the transformation at position `p`. An event that does not
/// start a paragraph passes. A paragraph passes, by its start event, unless
/// an image starts it and, after the image's first end, the paragraph ends,
/// or an attribute block and then the paragraph's end follow; then the
/// paragraph becomes a figure and the step moves past its end. Where the
/// events run out before that is decided, nothing is yielded and the step
/// moves just past the paragraph's start.
pub open spec fn auto_figure_step(ev: Seq<SpecEvent>, p: int) -> Step {
    if p < 0 || p >= ev.len() {
        Step::Stop(p)
    } else if !is_start_paragraph(ev[p]) {
        Step::Emit(ev[p], p + 1)
    } else if p + 1 >= ev.len() {
        Step::Stop(p + 1)
    } else if !is_start_image(ev[p + 1]) {
        Step::Emit(ev[p], p + 1)
    } else {
        match image_end(ev, p + 2) {
            None => Step::Stop(p + 1),
            Some(e) => if e + 1 >= ev.len() {
                Step::Stop(p + 1)
            } else if is_end_paragraph(ev[e + 1]) {
                Step::Emit(figure_of(ev, p, e, seq![]), e + 2)
            } else {
                match ev[e + 1] {
                    SpecEvent::Text(t) => match attrs_of(t) {
                        None => Step::Emit(ev[p], p + 1),
                        Some(a) => if e + 2 >= ev.len() {
                            Step::Stop(p + 1)
                        } else if is_end_paragraph(ev[e + 2]) {
                            Step::Emit(figure_of(ev, p, e, a), e + 3)
                        } else {
                            Step::Emit(ev[p], p + 1)
                        },
                    },
                    _ => Step::Emit(ev[p], p + 1),
                }
            },
        }
    }
}

/// The events that the transformation yields from position `p` on, up to
/// the first step that yields nothing: what collecting it gives.
pub open spec fn transformed_from(ev: Seq<SpecEvent>, p: int) -> Seq<SpecEvent>
    decreases ev.len() - p,
{
    if 0 <= p < ev.len() {
        match auto_figure_step(ev, p) {
            Step::Emit(e, np) => if p < np <= ev.len() {
                seq![e] + transformed_from(ev, np)
            } else {
                seq![e]
            },
            Step::Stop(_) => seq![],
        }
    } else {
        seq![]
    }
}

/// A copy of `e`.
fn copy_event(e: &Event) -> (res: Event)
    ensures
        res@ == e@,
{
    match e {
        Event::Start(t) => Event::Start(copy_tag(t)),
        Event::End(t) => Event::End(copy_tag(t)),
        Event::Text(s) => Event::Text(s.clone()),
        Event::Code(s) => Event::Code(s.clone()),
        Event::Html(s) => Event::Html(s.clone()),
        Event::SoftBreak => Event::SoftBreak,
        Event::HardBreak => Event::HardBreak,
    }
}

fn copy_tag(t: &Tag) -> (res: Tag)
    ensures
        res@ == t@,
{
    match t {
        Tag::Paragraph => Tag::Paragraph,
        Tag::Image { dest, title } => Tag::Image { dest: dest.clone(), title: title.clone() },
        Tag::Emphasis => Tag::Emphasis,
        Tag::Strong => Tag::Strong,
    }
}

/// The figure transformation over a sequence of events.
pub struct AutoFigures {
    events: Vec<Event>,
    pos: usize,
}

impl View for AutoFigures {
    type V = (Seq<SpecEvent>, int);

    closed spec fn view(&self) -> (Seq<SpecEvent>, int) {
        (events_view(self.events@), self.pos as int)
    }
}

impl AutoFigures {
    /// The transformation of the events `parent`, at their start.
    pub fn new(parent: Vec<Event>) -> (res: Self)
        ensures
            res@ == (events_view(parent@), 0int),
    {
        AutoFigures { events: parent, pos: 0 }
    }

    /// The next event of the transformed sequence. A malformed attribute
    /// block after an image that starts a paragraph is not accepted.
    pub fn next(&mut self) -> (res: Option<Event>)
        requires
            !step_reads_malformed_attrs(old(self)@.0, old(self)@.1),
        ensures
            final(self)@.0 == old(self)@.0,
            match auto_figure_step(old(self)@.0, old(self)@.1) {
                Step::Emit(e, np) => res matches Some(r) && r@ == e && final(self)@.1 == np,
                Step::Stop(np) => res is None && final(self)@.1 == np,
            },
    {
        let ghost ev = events_view(self.events@);
        let n = self.events.len();
        let p = self.pos;
        if p >= n {
            return None;
        }
        self.pos = p + 1;
        assert(ev[p as int] == self.events@[p as int]@);
        if !matches!(self.events[p], Event::Start(Tag::Paragraph)) {
            return Some(copy_event(&self.events[p]));
        }
        if p + 1 >= n {
            return None;
        }
        assert(ev[p + 1] == self.events@[p + 1]@);
        if !matches!(self.events[p + 1], Event::Start(Tag::Image { .. })) {
            return Some(copy_event(&self.events[p]));
        }
        let mut e = p + 2;
        while e < n && !matches!(self.events[e], Event::End(Tag::Image { .. }))
            invariant
                n == self.events@.len(),
                ev == events_view(self.events@),
                p + 2 <= e <= n,
                forall|k: int| p + 2 <= k < e ==> !is_end_image(ev[k]),
            decreases n - e,
        {
            e = e + 1;
        }
        if e >= n {
            assert(image_end(ev, p + 2) is None);
            return None;
        }
        assert(is_end_image(ev[e as int]));
        let ghost w = choose|w: int|
            p + 2 <= w < ev.len() && is_end_image(ev[w]) && forall|k: int|
                p + 2 <= k < w ==> !is_end_image(ev[k]);
        assert(w == e) by {
            if w < e {
                assert(!is_end_image(ev[w]));
            } else if w > e {
                assert(!is_end_image(ev[e as int]));
            }
        }
        assert(image_end(ev, p + 2) == Some(e as int));
        if e + 1 >= n {
            return None;
        }
        assert(ev[e + 1] == self.events@[e + 1]@);
        let mut attrs = Attrs { key_value: Vec::new() };
        let after;
        match &self.events[e + 1] {
            Event::End(Tag::Paragraph) => {
                after = e + 2;
            },
            Event::Text(text) => {
                match parse_attrs(text.as_str()) {
                    Some(a) => {
                        attrs = a;
                        if e + 2 >= n {
                            return None;
                        }
                        assert(ev[e + 2] == self.events@[e + 2]@);
                        if !matches!(self.events[e + 2], Event::End(Tag::Paragraph)) {
                            return Some(copy_event(&self.events[p]));
                        }
                        after = e + 3;
                    },
                    None => {
                        return Some(copy_event(&self.events[p]));
                    },
                }
            },
            _ => {
                return Some(copy_event(&self.events[p]));
            },
        }
        let (dest, title) = match &self.events[p + 1] {
            Event::Start(Tag::Image { dest, title }) => (dest, title),
            _ => {
                assert(false);
                return None;
            },
        };
        let caption = caption_html(&self.events, p + 2, e);
        let width = get_attr(&attrs, "width");
        let height = get_attr(&attrs, "height");
        let html = render_figure(dest.as_str(), title.as_str(), &width, &height, caption.as_str());
        self.pos = after;
        Some(Event::Html(html))
    }
}

} // verus!
