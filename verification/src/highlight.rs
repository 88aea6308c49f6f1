//! Syntax highlighting of code blocks with tree-sitter, rendered as HTML
//! spans whose classes name the highlight and the language.
use crate::text::{chars_of, push_char};
use crate::ts_config::{configure, Configured};
use vstd::prelude::*;
use vstd::string::StringSliceAdditionalSpecFns;
use vstd::utf8::{decode_utf8, is_char_boundary};
use tree_sitter_highlight::{HighlightConfiguration, HighlightEvent};

verus! {

broadcast use {
    vstd::utf8::encode_utf8_decode_utf8,
    vstd::utf8::encode_utf8_valid_utf8,
    vstd::utf8::valid_utf8_split,
    vstd::utf8::is_char_boundary_start_end_of_seq,
    vstd::utf8::is_char_boundary_iff_not_is_continuation_byte,
};

#[verifier::external_type_specification]
#[verifier::external_body]
pub struct ExHighlightConfiguration(HighlightConfiguration);

#[verifier::external_type_specification]
#[verifier::external_body]
pub struct ExHighlightError(tree_sitter_highlight::Error);

/// How many highlight names there are.
pub const HIGHLIGHT_NAME_COUNT: usize = 109;

/// The highlight names the highlighter is configured with, by index.
pub open spec fn spec_highlight_name(i: usize) -> Option<Seq<char>> {
    match i {
        0 => Some("attribute"@),
        1 => Some("boolean"@),
        2 => Some("character"@),
        3 => Some("comment"@),
        4 => Some("comment.documentation"@),
        5 => Some("constant"@),
        6 => Some("constant.builtin"@),
        7 => Some("define"@),
        8 => Some("exception"@),
        9 => Some("fold"@),
        10 => Some("function"@),
        11 => Some("function.builtin"@),
        12 => Some("function.call"@),
        13 => Some("function.macro"@),
        14 => Some("indent.align"@),
        15 => Some("indent.auto"@),
        16 => Some("indent.begin"@),
        17 => Some("indent.branch"@),
        18 => Some("indent.dedent"@),
        19 => Some("indent.end"@),
        20 => Some("indent.ignore"@),
        21 => Some("indent.zero"@),
        22 => Some("injection.content"@),
        23 => Some("injection.language"@),
        24 => Some("keyword"@),
        25 => Some("keyword.conditional"@),
        26 => Some("keyword.conditional.ternary"@),
        27 => Some("keyword.coroutine"@),
        28 => Some("keyword.debug"@),
        29 => Some("keyword.directive"@),
        30 => Some("keyword.directive.define"@),
        31 => Some("keyword.exception"@),
        32 => Some("keyword.function"@),
        33 => Some("keyword.import"@),
        34 => Some("keyword.operator"@),
        35 => Some("keyword.repeat"@),
        36 => Some("keyword.return"@),
        37 => Some("keyword.storage"@),
        38 => Some("label"@),
        39 => Some("local.definition"@),
        40 => Some("local.definition.field"@),
        41 => Some("local.definition.function"@),
        42 => Some("local.definition.import"@),
        43 => Some("local.definition.macro"@),
        44 => Some("local.definition.method"@),
        45 => Some("local.definition.namespace"@),
        46 => Some("local.definition.parameter"@),
        47 => Some("local.definition.type"@),
        48 => Some("local.definition.var"@),
        49 => Some("local.reference"@),
        50 => Some("local.scope"@),
        51 => Some("markup"@),
        52 => Some("markup.caption"@),
        53 => Some("markup.delete"@),
        54 => Some("markup.fixme"@),
        55 => Some("markup.footnote"@),
        56 => Some("markup.footnote.definition"@),
        57 => Some("markup.footnote.reference"@),
        58 => Some("markup.heading.1"@),
        59 => Some("markup.heading.2"@),
        60 => Some("markup.heading.3"@),
        61 => Some("markup.heading.4"@),
        62 => Some("markup.heading.5"@),
        63 => Some("markup.heading.6"@),
        64 => Some("markup.highlighted"@),
        65 => Some("markup.insert"@),
        66 => Some("markup.italic"@),
        67 => Some("markup.link.definition"@),
        68 => Some("markup.link.label"@),
        69 => Some("markup.link.reference"@),
        70 => Some("markup.link.url"@),
        71 => Some("markup.list"@),
        72 => Some("markup.list.checked"@),
        73 => Some("markup.list.unchecked"@),
        74 => Some("markup.math"@),
        75 => Some("markup.note"@),
        76 => Some("markup.quote"@),
        77 => Some("markup.raw"@),
        78 => Some("markup.strong"@),
        79 => Some("markup.subscript"@),
        80 => Some("markup.superscript"@),
        81 => Some("markup.symbol"@),
        82 => Some("markup.todo"@),
        83 => Some("module"@),
        84 => Some("nospell"@),
        85 => Some("number"@),
        86 => Some("number.float"@),
        87 => Some("operator"@),
        88 => Some("property"@),
        89 => Some("punctuation"@),
        90 => Some("punctuation.bracket"@),
        91 => Some("punctuation.delimiter"@),
        92 => Some("punctuation.special"@),
        93 => Some("spell"@),
        94 => Some("string"@),
        95 => Some("string.escape"@),
        96 => Some("string.special"@),
        97 => Some("tag"@),
        98 => Some("tag.attribute"@),
        99 => Some("tag.delimiter"@),
        100 => Some("text.title"@),
        101 => Some("type"@),
        102 => Some("type.builtin"@),
        103 => Some("type.definition"@),
        104 => Some("type.qualifier"@),
        105 => Some("variable"@),
        106 => Some("variable.builtin"@),
        107 => Some("variable.member"@),
        108 => Some("variable.parameter"@),
        _ => None,
    }
}

/// The highlight name with index `i`.
pub fn highlight_name(i: usize) -> (res: Option<&'static str>)
    ensures
        match spec_highlight_name(i) {
            Some(n) => res matches Some(r) && r@ == n,
            None => res is None,
        },
        res is Some <==> i < HIGHLIGHT_NAME_COUNT,
{
    match i {
        0 => Some("attribute"),
        1 => Some("boolean"),
        2 => Some("character"),
        3 => Some("comment"),
        4 => Some("comment.documentation"),
        5 => Some("constant"),
        6 => Some("constant.builtin"),
        7 => Some("define"),
        8 => Some("exception"),
        9 => Some("fold"),
        10 => Some("function"),
        11 => Some("function.builtin"),
        12 => Some("function.call"),
        13 => Some("function.macro"),
        14 => Some("indent.align"),
        15 => Some("indent.auto"),
        16 => Some("indent.begin"),
        17 => Some("indent.branch"),
        18 => Some("indent.dedent"),
        19 => Some("indent.end"),
        20 => Some("indent.ignore"),
        21 => Some("indent.zero"),
        22 => Some("injection.content"),
        23 => Some("injection.language"),
        24 => Some("keyword"),
        25 => Some("keyword.conditional"),
        26 => Some("keyword.conditional.ternary"),
        27 => Some("keyword.coroutine"),
        28 => Some("keyword.debug"),
        29 => Some("keyword.directive"),
        30 => Some("keyword.directive.define"),
        31 => Some("keyword.exception"),
        32 => Some("keyword.function"),
        33 => Some("keyword.import"),
        34 => Some("keyword.operator"),
        35 => Some("keyword.repeat"),
        36 => Some("keyword.return"),
        37 => Some("keyword.storage"),
        38 => Some("label"),
        39 => Some("local.definition"),
        40 => Some("local.definition.field"),
        41 => Some("local.definition.function"),
        42 => Some("local.definition.import"),
        43 => Some("local.definition.macro"),
        44 => Some("local.definition.method"),
        45 => Some("local.definition.namespace"),
        46 => Some("local.definition.parameter"),
        47 => Some("local.definition.type"),
        48 => Some("local.definition.var"),
        49 => Some("local.reference"),
        50 => Some("local.scope"),
        51 => Some("markup"),
        52 => Some("markup.caption"),
        53 => Some("markup.delete"),
        54 => Some("markup.fixme"),
        55 => Some("markup.footnote"),
        56 => Some("markup.footnote.definition"),
        57 => Some("markup.footnote.reference"),
        58 => Some("markup.heading.1"),
        59 => Some("markup.heading.2"),
        60 => Some("markup.heading.3"),
        61 => Some("markup.heading.4"),
        62 => Some("markup.heading.5"),
        63 => Some("markup.heading.6"),
        64 => Some("markup.highlighted"),
        65 => Some("markup.insert"),
        66 => Some("markup.italic"),
        67 => Some("markup.link.definition"),
        68 => Some("markup.link.label"),
        69 => Some("markup.link.reference"),
        70 => Some("markup.link.url"),
        71 => Some("markup.list"),
        72 => Some("markup.list.checked"),
        73 => Some("markup.list.unchecked"),
        74 => Some("markup.math"),
        75 => Some("markup.note"),
        76 => Some("markup.quote"),
        77 => Some("markup.raw"),
        78 => Some("markup.strong"),
        79 => Some("markup.subscript"),
        80 => Some("markup.superscript"),
        81 => Some("markup.symbol"),
        82 => Some("markup.todo"),
        83 => Some("module"),
        84 => Some("nospell"),
        85 => Some("number"),
        86 => Some("number.float"),
        87 => Some("operator"),
        88 => Some("property"),
        89 => Some("punctuation"),
        90 => Some("punctuation.bracket"),
        91 => Some("punctuation.delimiter"),
        92 => Some("punctuation.special"),
        93 => Some("spell"),
        94 => Some("string"),
        95 => Some("string.escape"),
        96 => Some("string.special"),
        97 => Some("tag"),
        98 => Some("tag.attribute"),
        99 => Some("tag.delimiter"),
        100 => Some("text.title"),
        101 => Some("type"),
        102 => Some("type.builtin"),
        103 => Some("type.definition"),
        104 => Some("type.qualifier"),
        105 => Some("variable"),
        106 => Some("variable.builtin"),
        107 => Some("variable.member"),
        108 => Some("variable.parameter"),
        _ => None,
    }
}

/// A step of a highlighted rendering of a piece of code.
#[derive(Debug, Clone, Copy, PartialEq, Eq, Structural)]
pub enum HlEvent {
    /// The code between byte offsets `start` and `end`.
    Source { start: usize, end: usize },
    /// A span with the highlight of the given index starts.
    HighlightStart(usize),
    /// The innermost open span ends.
    HighlightEnd,
}

/// Why highlighting failed.
#[derive(Debug)]
pub enum HighlightError {
    /// The highlighter could not start on the code.
    NotStarted(tree_sitter_highlight::Error),
    /// The highlighter yielded an error among its events.
    Highlighting(tree_sitter_highlight::Error),
    /// The highlighter returned a range outside the code, or cutting a
    /// character, or a highlight without a name.
    InvalidEvent,
}

/// A configuration with the language it highlights. Only
/// `init_configurations` builds one, from the fixed grammar and queries of
/// its language, so the language and the highlight names it was configured
/// with determine it; its view is the two.
pub struct NamedConfig {
    name: String,
    configured: Configured,
}

impl View for NamedConfig {
    type V = (Seq<char>, Seq<Seq<char>>);

    closed spec fn view(&self) -> (Seq<char>, Seq<Seq<char>>) {
        (self.name@, self.configured.names())
    }
}

impl NamedConfig {
    /// The highlight names the configuration was configured with, a
    /// highlight's index being its position here.
    pub open spec fn highlights(&self) -> Seq<Seq<char>> {
        self@.1
    }

    /// The tree-sitter configuration.
    pub closed spec fn configuration(&self) -> HighlightConfiguration {
        self.configured.configuration()
    }
}

/// Every highlight name, in index order.
pub open spec fn all_highlight_names() -> Seq<Seq<char>> {
    Seq::new(HIGHLIGHT_NAME_COUNT as nat, |i: int| spec_highlight_name(i as usize)->0)
}

/// The highlighting configurations of the languages the site knows.
pub struct HighlightConfigs {
    configs: Vec<NamedConfig>,
}

impl View for HighlightConfigs {
    type V = Seq<NamedConfig>;

    closed spec fn view(&self) -> Seq<NamedConfig> {
        self.configs@
    }
}

/// The names of the languages of some configurations, in order.
pub open spec fn config_names(configs: Seq<NamedConfig>) -> Seq<Seq<char>> {
    configs.map_values(|c: NamedConfig| c@.0)
}

/// The events that tree-sitter's highlighter yields for the code with bytes
/// `code`, highlighted with the configuration of language `config` configured
/// with the highlight names `highlights`, the languages it injects being
/// looked up among the configurations of the languages `configs`. Where the
/// highlighter does not start, `Err(true)`; where it yields an error among
/// its events, `Err(false)`.
pub uninterp spec fn ts_highlight_events(
    config: Seq<char>,
    highlights: Seq<Seq<char>>,
    configs: Seq<Seq<char>>,
    code: Seq<u8>,
) -> Result<Seq<HlEvent>, bool>;

/// Whether tree-sitter builds a configuration from the grammar and the
/// highlights and injections queries of the `tree-sitter-rust` crate with
/// the locals query `locals`.
pub uninterp spec fn ts_rust_queries_accepted(locals: Seq<char>) -> bool;

/// The class of a highlight: its name with each `.` turned into a space.
pub open spec fn highlight_class(name: Seq<char>) -> Seq<char> {
    name.map_values(|c: char| if c == '.' { ' ' } else { c })
}

/// The opening tag of a span with highlight `name` in language `lang`.
pub open spec fn span_open(name: Seq<char>, lang: Seq<char>) -> Seq<char> {
    "<span class=\""@ + highlight_class(name) + seq![' '] + lang + "\">"@
}

/// Whether `e` can be rendered from code with bytes `code`.
pub open spec fn event_valid(code: Seq<u8>, e: HlEvent) -> bool {
    match e {
        HlEvent::Source { start, end } => start <= end && is_char_boundary(code, start as int)
            && is_char_boundary(code, end as int),
        HlEvent::HighlightStart(i) => i < HIGHLIGHT_NAME_COUNT,
        HlEvent::HighlightEnd => true,
    }
}

pub open spec fn events_valid(code: Seq<u8>, events: Seq<HlEvent>) -> bool {
    forall|i: int| 0 <= i < events.len() ==> event_valid(code, #[trigger] events[i])
}

/// The HTML of one event.
pub open spec fn event_html(lang: Seq<char>, code: Seq<u8>, e: HlEvent) -> Seq<char> {
    match e {
        HlEvent::Source { start, end } => decode_utf8(code.subrange(start as int, end as int)),
        HlEvent::HighlightStart(i) => span_open(spec_highlight_name(i)->0, lang),
        HlEvent::HighlightEnd => "</span>"@,
    }
}

/// The HTML of the events, one after the other.
pub open spec fn events_html(lang: Seq<char>, code: Seq<u8>, events: Seq<HlEvent>) -> Seq<char>
    decreases events.len(),
{
    if events.len() == 0 {
        seq![]
    } else {
        events_html(lang, code, events.drop_last()) + event_html(lang, code, events.last())
    }
}

/// The rendered code: the HTML of the events, ending with a line feed.
pub open spec fn highlight_html(lang: Seq<char>, code: Seq<u8>, events: Seq<HlEvent>) -> Seq<char> {
    let body = events_html(lang, code, events);
    if body.len() > 0 && body.last() == '\n' {
        body
    } else {
        body.push('\n')
    }
}

/// The class of the highlight named `name`.
fn class_of(name: &str) -> (res: String)
    ensures
        res@ == highlight_class(name@),
{
    let chars = chars_of(name);
    let mut res = String::new();
    for i in 0..chars.len()
        invariant
            chars@ == name@,
            res@ == highlight_class(chars@.take(i as int)),
    {
        let c = chars[i];
        push_char(&mut res, if c == '.' { ' ' } else { c });
        assert(highlight_class(chars@.take(i + 1)) =~= highlight_class(chars@.take(i as int)).push(
            if c == '.' { ' ' } else { c },
        ));
    }
    assert(chars@.take(chars@.len() as int) =~= chars@);
    res
}

proof fn lemma_prefix_boundary(code: Seq<u8>, start: int, end: int)
    requires
        vstd::utf8::valid_utf8(code),
        0 <= start <= end <= code.len(),
        is_char_boundary(code, start),
        is_char_boundary(code, end),
    ensures
        vstd::utf8::valid_utf8(code.subrange(0, end)),
        is_char_boundary(code.subrange(0, end), start),
{
    let prefix = code.subrange(0, end);
    vstd::utf8::valid_utf8_split(code, end);
    assert(code.subrange(0, end) =~= prefix);
    if start < end {
        assert(prefix[start] == code[start]);
        vstd::utf8::is_char_boundary_iff_not_is_continuation_byte(code, start);
        vstd::utf8::is_char_boundary_iff_not_is_continuation_byte(prefix, start);
    } else {
        vstd::utf8::is_char_boundary_start_end_of_seq(prefix);
    }
}

/// Renders the events of a highlighted piece of code `code` in language
/// `lang_id`: code ranges as they are, spans for highlights; the result ends
/// with a line feed.
pub fn render_highlights(lang_id: &str, code: &str, events: &[HlEvent]) -> (res: String)
    requires
        events_valid(code.spec_bytes(), events@),
    ensures
        res@ == highlight_html(lang_id@, code.spec_bytes(), events@),
{
    let mut res = String::new();
    for i in 0..events.len()
        invariant
            events_valid(code.spec_bytes(), events@),
            res@ == events_html(lang_id@, code.spec_bytes(), events@.take(i as int)),
    {
        let ghost before = res@;
        assert(events@.take(i + 1).drop_last() =~= events@.take(i as int));
        assert(event_valid(code.spec_bytes(), events@[i as int]));
        match events[i] {
            HlEvent::Source { start, end } => {
                proof {
                    lemma_prefix_boundary(code.spec_bytes(), start as int, end as int);
                }
                let (head, _) = code.split_at(end);
                let (_, piece) = head.split_at(start);
                assert(piece.spec_bytes() =~= code.spec_bytes().subrange(start as int, end as int));
                res.append(piece);
            },
            HlEvent::HighlightEnd => {
                res.append("</span>");
            },
            HlEvent::HighlightStart(h) => {
                let name = match highlight_name(h) {
                    Some(name) => name,
                    None => "",
                };
                res.append("<span class=\"");
                let class = class_of(name);
                res.append(class.as_str());
                push_char(&mut res, ' ');
                res.append(lang_id);
                res.append("\">");
                assert(res@ =~= before + span_open(spec_highlight_name(h)->0, lang_id@));
            },
        }
    }
    assert(events@.take(events@.len() as int) =~= events@);
    let chars = chars_of(res.as_str());
    if chars.len() == 0 || chars[chars.len() - 1] != '\n' {
        push_char(&mut res, '\n');
    }
    res
}

/// Whether every event can be rendered from `code`.
fn check_events(code: &str, events: &[HlEvent]) -> (res: bool)
    ensures
        res == events_valid(code.spec_bytes(), events@),
{
    for i in 0..events.len()
        invariant
            forall|k: int| 0 <= k < i ==> event_valid(code.spec_bytes(), #[trigger] events@[k]),
    {
        let ok = match events[i] {
            HlEvent::Source { start, end } => start <= end && code.is_char_boundary(start)
                && code.is_char_boundary(end),
            HlEvent::HighlightStart(h) => h < HIGHLIGHT_NAME_COUNT,
            HlEvent::HighlightEnd => true,
        };
        if !ok {
            assert(!event_valid(code.spec_bytes(), events@[i as int]));
            return false;
        }
    }
    true
}

impl HighlightConfigs {
    /// Where the first configuration of language `name` stands.
    fn position(&self, name: &str) -> (res: Option<usize>)
        ensures
            match res {
                Some(i) => i < self@.len() && self@[i as int]@.0 == name@ && forall|k: int|
                    0 <= k < i ==> #[trigger] self@[k]@.0 != name@,
                None => forall|k: int| 0 <= k < self@.len() ==> #[trigger] self@[k]@.0 != name@,
            },
    {
        let wanted = chars_of(name);
        for i in 0..self.configs.len()
            invariant
                wanted@ == name@,
                forall|k: int| 0 <= k < i ==> #[trigger] self.configs@[k].name@ != name@,
        {
            let have = chars_of(self.configs[i].name.as_str());
            if crate::text::same_chars(have.as_slice(), wanted.as_slice()) {
                return Some(i);
            }
        }
        None
    }

    /// The configuration of language `name`: that of the first configuration
    /// named so.
    pub fn find(&self, name: &str) -> (res: Option<&HighlightConfiguration>)
        ensures
            res is Some <==> exists|i: int|
                0 <= i < self@.len() && #[trigger] self@[i]@.0 == name@,
            res matches Some(c) ==> exists|i: int|
                0 <= i < self@.len() && #[trigger] self@[i]@.0 == name@ && *c == self@[i].configuration()
                    && forall|k: int| 0 <= k < i ==> self@[k]@.0 != name@,
    {
        match self.position(name) {
            Some(i) => Some(self.configs[i].configured.config()),
            None => None,
        }
    }
}

/// Runs tree-sitter's `Highlighter::highlight` on `code` with the
/// configuration `config`, languages injected into the code being looked up
/// in `configs`, and collects the events it yields: those named by
/// `ts_highlight_events`. Where the call fails, its error, marked `true`;
/// where an event is an error, the first such error, marked `false`. Which
/// error tree-sitter gives is not stated.
#[verifier::external_body]
fn highlight_events(
    config: &NamedConfig,
    configs: &HighlightConfigs,
    code: &str,
) -> (res: Result<Vec<HlEvent>, (bool, tree_sitter_highlight::Error)>)
    ensures
        match ts_highlight_events(
            config@.0,
            config.highlights(),
            config_names(configs@),
            code.spec_bytes(),
        ) {
            Ok(events) => res matches Ok(v) && v@ == events,
            Err(at_start) => res matches Err((s, _)) && s == at_start,
        },
{
    let mut highlighter = tree_sitter_highlight::Highlighter::new();
    let config = config.configured.config();
    let iter = highlighter.highlight(config, code.as_bytes(), None, |x| configs.find(x)).map_err(
        |e| (true, e),
    )?;
    let mut events = Vec::new();
    for event in iter {
        events.push(match event.map_err(|e| (false, e))? {
            HighlightEvent::Source { start, end } => HlEvent::Source { start, end },
            HighlightEvent::HighlightStart(h) => HlEvent::HighlightStart(h.0),
            HighlightEvent::HighlightEnd => HlEvent::HighlightEnd,
        });
    }
    Ok(events)
}

/// Highlights code with one language's configuration.
pub struct TreesitterHighlighter<'a> {
    config: &'a NamedConfig,
    configs: &'a HighlightConfigs,
}

impl<'a> TreesitterHighlighter<'a> {
    /// The configuration the highlighter uses.
    pub closed spec fn config(&self) -> NamedConfig {
        *self.config
    }

    /// The configurations injected languages are looked up in.
    pub closed spec fn configs(&self) -> HighlightConfigs {
        *self.configs
    }

    /// The highlighter of language `lang_id`, if `configs` has it: it uses
    /// the first configuration of that language, and looks injected
    /// languages up in `configs`.
    pub fn find(configs: &'a HighlightConfigs, lang_id: &str) -> (res: Option<Self>)
        ensures
            res is Some <==> exists|i: int|
                0 <= i < configs@.len() && #[trigger] configs@[i]@.0 == lang_id@,
            res matches Some(h) ==> h.configs() == *configs && exists|i: int|
                0 <= i < configs@.len() && #[trigger] configs@[i]@.0 == lang_id@ && h.config()
                    == configs@[i] && forall|k: int| 0 <= k < i ==> configs@[k]@.0 != lang_id@,
    {
        match configs.position(lang_id) {
            Some(i) => Some(TreesitterHighlighter { config: &configs.configs[i], configs }),
            None => None,
        }
    }

    /// Highlights `code` as HTML, the language `lang_id` named in every span:
    /// the rendering of the events tree-sitter yields for the code, which
    /// ends with a line feed. Where tree-sitter does not start, `NotStarted`
    /// with its error; where it yields an error among its events,
    /// `Highlighting` with the first; where its events leave the code, cut a
    /// character or name no highlight, `InvalidEvent`.
    pub fn highlight(&self, lang_id: &str, code: &str) -> (res: Result<String, HighlightError>)
        ensures
            match ts_highlight_events(
                self.config()@.0,
                self.config().highlights(),
                config_names(self.configs()@),
                code.spec_bytes(),
            ) {
                Err(true) => res matches Err(HighlightError::NotStarted(_)),
                Err(false) => res matches Err(HighlightError::Highlighting(_)),
                Ok(events) => if events_valid(code.spec_bytes(), events) {
                    res matches Ok(s) && s@ == highlight_html(lang_id@, code.spec_bytes(), events)
                } else {
                    res matches Err(HighlightError::InvalidEvent)
                },
            },
            res matches Ok(s) ==> s@.len() > 0 && s@.last() == '\n',
    {
        let outcome = highlight_events(self.config, self.configs, code);
        highlight_outcome(lang_id, code, outcome)
    }
}

/// The HTML of `code` highlighted in language `lang_id`, given what
/// tree-sitter answered for it: its error, as `NotStarted` where it is marked
/// `true` (the highlighter did not start) and as `Highlighting` otherwise, or
/// its events, rendered where they all lie within the code and name a
/// highlight.
pub fn highlight_outcome(
    lang_id: &str,
    code: &str,
    outcome: Result<Vec<HlEvent>, (bool, tree_sitter_highlight::Error)>,
) -> (res: Result<String, HighlightError>)
    ensures
        match outcome {
            Err((true, e)) => res matches Err(HighlightError::NotStarted(e2)) && e2 == e,
            Err((false, e)) => res matches Err(HighlightError::Highlighting(e2)) && e2 == e,
            Ok(events) => if events_valid(code.spec_bytes(), events@) {
                res matches Ok(s) && s@ == highlight_html(lang_id@, code.spec_bytes(), events@)
            } else {
                res matches Err(HighlightError::InvalidEvent)
            },
        },
{
    let events = match outcome {
        Ok(events) => events,
        Err((true, e)) => return Err(HighlightError::NotStarted(e)),
        Err((false, e)) => return Err(HighlightError::Highlighting(e)),
    };
    if !check_events(code, events.as_slice()) {
        return Err(HighlightError::InvalidEvent);
    }
    Ok(render_highlights(lang_id, code, events.as_slice()))
}

/// Tree-sitter's `HighlightConfiguration::new` on the grammar of the
/// `tree-sitter-rust` crate with its highlights and injections queries and the
/// locals query `locals_query`: a configuration exactly where tree-sitter
/// accepts the queries (`ts_rust_queries_accepted`). Nothing else is stated
/// of the configuration.
#[verifier::external_body]
fn rust_configuration(locals_query: &str) -> (res: Option<HighlightConfiguration>)
    ensures
        res is Some <==> ts_rust_queries_accepted(locals_query@),
{
    HighlightConfiguration::new(
        tree_sitter_rust::language(),
        tree_sitter_rust::HIGHLIGHT_QUERY,
        tree_sitter_rust::INJECTIONS_QUERY,
        locals_query,
    ).ok()
}

/// The highlight names, in index order.
fn highlight_names() -> (res: Vec<&'static str>)
    ensures
        res@.len() == HIGHLIGHT_NAME_COUNT,
        forall|i: int|
            0 <= i < HIGHLIGHT_NAME_COUNT ==> Some(#[trigger] res@[i]@) == spec_highlight_name(
                i as usize,
            ),
{
    let mut res: Vec<&'static str> = Vec::new();
    for i in 0..HIGHLIGHT_NAME_COUNT
        invariant
            res@.len() == i,
            forall|k: int| 0 <= k < i ==> Some(#[trigger] res@[k]@) == spec_highlight_name(k as usize),
    {
        match highlight_name(i) {
            Some(name) => res.push(name),
            None => {},
        }
    }
    res
}

/// The configurations of the languages the site highlights: Rust, with its
/// grammar's queries and no locals query, configured with every highlight
/// name; `None` where tree-sitter refuses the queries. (The site's own markup
/// language has a grammar crate that is not published, so it has no
/// configuration here.)
pub fn init_configurations() -> (res: Option<HighlightConfigs>)
    ensures
        res is Some <==> ts_rust_queries_accepted(""@),
        res matches Some(c) ==> config_names(c@) == seq!["rust"@] && c@[0].highlights()
            == all_highlight_names(),
{
    let names = highlight_names();
    let config = match rust_configuration("") {
        Some(config) => config,
        None => return None,
    };
    let configured = configure(config, names);
    let mut configs = Vec::new();
    configs.push(NamedConfig { name: "rust".to_owned(), configured });
    let res = HighlightConfigs { configs };
    assert(config_names(res@) =~= seq!["rust"@]);
    assert(res@[0].highlights() =~= all_highlight_names());
    Some(res)
}

} // verus!
