//! The line of key hints.

use vstd::prelude::*;
use vstd::string::*;

use crate::config::{Color, Style};

verus! {

/// A piece of text drawn in one style.
#[derive(Debug)]
pub struct Span {
    pub content: String,
    pub style: Style,
}

/// The mathematical value of a `Span`.
pub struct SpanView {
    pub content: Seq<char>,
    pub style: Style,
}

impl View for Span {
    type V = SpanView;

    open spec fn view(&self) -> SpanView {
        SpanView { content: self.content@, style: self.style }
    }
}

impl Clone for Span {
    fn clone(&self) -> (r: Self)
        ensures
            r@ == self@,
    {
        Span { content: self.content.clone(), style: self.style }
    }
}

/// The values of a sequence of spans.
pub open spec fn span_views(spans: Seq<Span>) -> Seq<SpanView> {
    Seq::new(spans.len(), |i: int| spans[i]@)
}

/// The style that sets nothing.
pub open spec fn no_style() -> Style {
    Style {
        fg: None,
        bg: None,
        bold: false,
        italic: false,
        underlined: false,
        dim: false,
        reversed: false,
    }
}

/// The style that sets nothing.
pub fn unstyled() -> (style: Style)
    ensures
        style == no_style(),
{
    Style {
        fg: None,
        bg: None,
        bold: false,
        italic: false,
        underlined: false,
        dim: false,
        reversed: false,
    }
}

/// A key and what it does.
#[derive(Debug, Clone, Copy)]
pub struct HelpItem<'a> {
    pub key: &'a str,
    pub description: &'a str,
}

/// The value of a help item: the key and the description.
pub open spec fn item_view(item: HelpItem) -> (Seq<char>, Seq<char>) {
    (item.key@, item.description@)
}

/// The values of a sequence of help items.
pub open spec fn item_views(items: Seq<HelpItem>) -> Seq<(Seq<char>, Seq<char>)> {
    Seq::new(items.len(), |i: int| item_view(items[i]))
}

/// The line of key hints, with the styles it is drawn in.
pub struct HelpPanel<'a> {
    items: Vec<HelpItem<'a>>,
    key_style: Style,
    desc_style: Style,
}

/// The spans of the first `upto` items: for each the key, then a colon,
/// the description and a blank, and a blank more between two items.
pub open spec fn item_spans(
    items: Seq<(Seq<char>, Seq<char>)>,
    key_style: Style,
    desc_style: Style,
    upto: int,
) -> Seq<SpanView>
    decreases upto,
{
    if upto <= 0 {
        Seq::empty()
    } else {
        let item = items[upto - 1];
        let shown = item_spans(items, key_style, desc_style, upto - 1).push(
            SpanView { content: item.0, style: key_style },
        ).push(SpanView { content: seq![':'] + item.1 + seq![' '], style: desc_style });
        if upto < items.len() {
            shown.push(SpanView { content: seq![' '], style: no_style() })
        } else {
            shown
        }
    }
}

/// The spans of the whole line: a blank, then the items.
pub open spec fn help_line(
    items: Seq<(Seq<char>, Seq<char>)>,
    key_style: Style,
    desc_style: Style,
) -> Seq<SpanView> {
    seq![SpanView { content: seq![' '], style: no_style() }] + item_spans(
        items,
        key_style,
        desc_style,
        items.len() as int,
    )
}

impl<'a> HelpPanel<'a> {
    /// The items of the panel.
    pub closed spec fn items(&self) -> Seq<(Seq<char>, Seq<char>)> {
        item_views(self.items@)
    }

    /// The style of the keys.
    pub closed spec fn keys(&self) -> Style {
        self.key_style
    }

    /// The style of the descriptions.
    pub closed spec fn descriptions(&self) -> Style {
        self.desc_style
    }

    /// A panel of the items, with keys in bold yellow and descriptions in gray.
    pub fn new(items: Vec<HelpItem<'a>>) -> (panel: Self)
        ensures
            panel.items() == item_views(items@),
            panel.keys() == (Style { fg: Some(Color::Yellow), bold: true, ..no_style() }),
            panel.descriptions() == (Style { fg: Some(Color::Gray), ..no_style() }),
    {
        HelpPanel {
            items,
            key_style: Style {
                fg: Some(Color::Yellow),
                bg: None,
                bold: true,
                italic: false,
                underlined: false,
                dim: false,
                reversed: false,
            },
            desc_style: Style {
                fg: Some(Color::Gray),
                bg: None,
                bold: false,
                italic: false,
                underlined: false,
                dim: false,
                reversed: false,
            },
        }
    }

    /// The panel with another style for the keys.
    pub fn key_style(self, style: Style) -> (panel: Self)
        ensures
            panel.items() == self.items(),
            panel.keys() == style,
            panel.descriptions() == self.descriptions(),
    {
        let mut panel = self;
        panel.key_style = style;
        panel
    }

    /// The panel with another style for the descriptions.
    pub fn desc_style(self, style: Style) -> (panel: Self)
        ensures
            panel.items() == self.items(),
            panel.keys() == self.keys(),
            panel.descriptions() == style,
    {
        let mut panel = self;
        panel.desc_style = style;
        panel
    }

    /// The spans of the line.
    pub fn render(&self) -> (spans: Vec<Span>)
        ensures
            span_views(spans@) == help_line(self.items(), self.keys(), self.descriptions()),
    {
        let ghost items = item_views(self.items@);
        let mut spans: Vec<Span> = Vec::new();
        proof {
            reveal_strlit(" ");
            reveal_strlit(":");
        }
        assert(" "@ =~= seq![' ']);
        assert(":"@ =~= seq![':']);
        spans.push(Span { content: String::from_str(" "), style: unstyled() });
        let ghost head = span_views(spans@);
        assert(head =~= seq![SpanView { content: seq![' '], style: no_style() }]);
        let mut i: usize = 0;
        assert(span_views(spans@) =~= head + item_spans(items, self.key_style, self.desc_style, 0));
        while i < self.items.len()
            invariant
                i <= self.items.len(),
                items == item_views(self.items@),
                " "@ == seq![' '],
                ":"@ == seq![':'],
                span_views(spans@) == head + item_spans(
                    items,
                    self.key_style,
                    self.desc_style,
                    i as int,
                ),
            decreases self.items.len() - i,
        {
            let ghost before = span_views(spans@);
            let item: HelpItem = self.items[i];
            assert(items[i as int] == item_view(item));
            let mut text: String = String::from_str(":");
            text.append(item.description);
            text.append(" ");
            let key = Span { content: String::from_str(item.key), style: self.key_style };
            let description = Span { content: text, style: self.desc_style };
            let ghost key_view = key@;
            let ghost description_view = description@;
            spans.push(key);
            spans.push(description);
            if i + 1 < self.items.len() {
                spans.push(Span { content: String::from_str(" "), style: unstyled() });
                assert(span_views(spans@) =~= before.push(key_view).push(description_view).push(
                    SpanView { content: seq![' '], style: no_style() },
                ));
            } else {
                assert(span_views(spans@) =~= before.push(key_view).push(description_view));
            }
            i += 1;
            assert(span_views(spans@) =~= head + item_spans(
                items,
                self.key_style,
                self.desc_style,
                i as int,
            ));
        }
        spans
    }
}

} // verus!
