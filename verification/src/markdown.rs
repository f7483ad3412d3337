//! Markdown events and the title of a document.

use pulldown_cmark::{Event, Parser, Tag};
use vstd::prelude::*;

verus! {

/// What the title scan needs to know about one parser event.
#[derive(Debug, Clone, PartialEq, Eq)]
pub enum MdEvent {
    /// The start of a heading, with its level (1 for `#`, 2 for `##`, ...).
    HeadingStart(u8),
    /// A run of plain text.
    Text(String),
    /// Any other event.
    Other,
}

/// The mathematical value of an [`MdEvent`].
pub enum Token {
    HeadingStart(u8),
    Text(Seq<char>),
    Other,
}

impl DeepView for MdEvent {
    type V = Token;

    open spec fn deep_view(&self) -> Token {
        match self {
            MdEvent::HeadingStart(level) => Token::HeadingStart(*level),
            MdEvent::Text(text) => Token::Text(text@),
            MdEvent::Other => Token::Other,
        }
    }
}

/// The title of a document that supplies none.
pub const UNTITLED: &'static str = "Untitled";

/// `token` opens a level-1 heading.
pub open spec fn is_h1_start(token: Token) -> bool {
    token == Token::HeadingStart(1u8)
}

/// `i` is the position of the first level-1 heading start in `tokens`.
pub open spec fn is_first_h1(tokens: Seq<Token>, i: int) -> bool {
    &&& 0 <= i < tokens.len()
    &&& is_h1_start(tokens[i])
    &&& forall|j: int| 0 <= j < i ==> !is_h1_start(#[trigger] tokens[j])
}

/// The title of a document given as its event sequence: the text of the
/// event that directly follows the first level-1 heading start, if that event
/// is plain text, and `"Untitled"` in every other case. Only the first
/// level-1 heading is ever considered.
pub open spec fn title_of(tokens: Seq<Token>) -> Seq<char> {
    if exists|i: int| is_first_h1(tokens, i) {
        let i = choose|i: int| is_first_h1(tokens, i);
        if i + 1 < tokens.len() && tokens[i + 1] is Text {
            tokens[i + 1]->Text_0
        } else {
            UNTITLED@
        }
    } else {
        UNTITLED@
    }
}

/// There is at most one first level-1 heading.
pub proof fn lemma_first_h1_unique(tokens: Seq<Token>, i: int, j: int)
    requires
        is_first_h1(tokens, i),
        is_first_h1(tokens, j),
    ensures
        i == j,
{
    if i < j {
        assert(!is_h1_start(tokens[i]));
    } else if j < i {
        assert(!is_h1_start(tokens[j]));
    }
}

/// Scans `events` for the title, as [`title_of`] defines it.
pub fn extract_title(events: &Vec<MdEvent>) -> (title: String)
    ensures
        title@ == title_of(events.deep_view()),
{
    let ghost tokens = events.deep_view();
    let mut i: usize = 0;
    while i < events.len()
        invariant
            i <= events.len(),
            tokens == events.deep_view(),
            tokens.len() == events.len(),
            forall|j: int| 0 <= j < i ==> !is_h1_start(#[trigger] tokens[j]),
        decreases events.len() - i,
    {
        assert(tokens[i as int] == events[i as int].deep_view());
        if let MdEvent::HeadingStart(level) = &events[i] {
            if *level == 1 {
                assert(is_first_h1(tokens, i as int));
                proof {
                    lemma_first_h1_unique(tokens, i as int, choose|k: int| is_first_h1(tokens, k));
                }
                if i + 1 < events.len() {
                    assert(tokens[i + 1] == events[i + 1].deep_view());
                    if let MdEvent::Text(text) = &events[i + 1] {
                        return text.clone();
                    }
                }
                return String::from_str(UNTITLED);
            }
        }
        i += 1;
    }
    assert forall|k: int| !is_first_h1(tokens, k) by {
        if 0 <= k < tokens.len() {
            assert(!is_h1_start(tokens[k]));
        }
    }
    String::from_str(UNTITLED)
}

/// The events that `pulldown_cmark` reads from a markdown source, each reduced
/// to a [`Token`]. This names the parser's output; nothing here defines it.
pub uninterp spec fn markdown_events(source: Seq<char>) -> Seq<Token>;

/// The HTML fragment that `pulldown_cmark` writes for a markdown source.
/// This names the converter's output; nothing here defines it.
pub uninterp spec fn markdown_html(source: Seq<char>) -> Seq<char>;

/// Runs `pulldown_cmark::Parser::new` over `markdown`, with no extension
/// enabled, and collects every event it yields, in order. Trusted: the result
/// is the parser's event sequence for this text, which depends on the text
/// alone; a heading start keeps its level, a text event its text, and every
/// other event becomes [`MdEvent::Other`].
#[verifier::external_body]
fn parse_events(markdown: &str) -> (events: Vec<MdEvent>)
    ensures
        events.deep_view() == markdown_events(markdown@),
{
    let mut events = Vec::new();
    for event in Parser::new(markdown) {
        events.push(
            match event {
                Event::Start(Tag::Heading { level, .. }) => MdEvent::HeadingStart(level as u8),
                Event::Text(text) => MdEvent::Text(text.to_string()),
                _ => MdEvent::Other,
            },
        );
    }
    events
}

/// Runs `pulldown_cmark::html::push_html` on a fresh parser over `markdown`.
/// Trusted: the result is the converter's output for this text, which depends
/// on the text alone.
#[verifier::external_body]
fn push_html(markdown: &str) -> (html: String)
    ensures
        html@ == markdown_html(markdown@),
{
    let mut html = String::new();
    pulldown_cmark::html::push_html(&mut html, Parser::new(markdown));
    html
}

/// The title of a markdown document: the plain text that opens its first
/// level-1 heading, or `"Untitled"`.
pub fn get_title(markdown: &str) -> (title: String)
    ensures
        title@ == title_of(markdown_events(markdown@)),
{
    let events = parse_events(markdown);
    extract_title(&events)
}

/// Converts a markdown document to an HTML fragment. Raw HTML in the source
/// passes through as the converter leaves it.
pub fn to_html(markdown: &str) -> (html: String)
    ensures
        html@ == markdown_html(markdown@),
{
    push_html(markdown)
}

/// When the first level-1 heading is directly followed by plain text, the
/// title is exactly that text.
pub proof fn lemma_title_is_heading_text(tokens: Seq<Token>, i: int, text: Seq<char>)
    requires
        is_first_h1(tokens, i),
        i + 1 < tokens.len(),
        tokens[i + 1] == Token::Text(text),
    ensures
        title_of(tokens) == text,
{
    lemma_first_h1_unique(tokens, i, choose|k: int| is_first_h1(tokens, k));
}

/// A document without a level-1 heading is untitled.
pub proof fn lemma_no_heading_untitled(tokens: Seq<Token>)
    requires
        forall|j: int| 0 <= j < tokens.len() ==> !is_h1_start(#[trigger] tokens[j]),
    ensures
        title_of(tokens) == UNTITLED@,
{
    assert forall|k: int| !is_first_h1(tokens, k) by {
        if 0 <= k < tokens.len() {
            assert(!is_h1_start(tokens[k]));
        }
    }
}

/// A document whose first level-1 heading is not directly followed by plain
/// text is untitled, whatever comes later.
pub proof fn lemma_heading_without_text_untitled(tokens: Seq<Token>, i: int)
    requires
        is_first_h1(tokens, i),
        i + 1 >= tokens.len() || !(tokens[i + 1] is Text),
    ensures
        title_of(tokens) == UNTITLED@,
{
    lemma_first_h1_unique(tokens, i, choose|k: int| is_first_h1(tokens, k));
}

} // verus!
