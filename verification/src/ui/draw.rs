//! The rows of the tree and of the search results, and the texts of the
//! status bar.

use std::collections::HashMap;
use vstd::prelude::*;
use vstd::string::*;

use crate::app::navigation::line_numbers;
use crate::app::{App, AppView, Mode};
use crate::config::{style_of, ColorConfig, ColorConfigView, Style};
use crate::fuzzy::{fuzzy_indices_ignoring_case, ignore_case_indices};
use crate::quick_search::{search_text, search_text_of};
use crate::search::{ResultView, SearchResult};
use crate::text::{
    blanks, chars_of, decimal, decimal_text, left_aligned, right_aligned, spaces, string_of,
};
use crate::tmux::{session_views, SessionView};
use crate::tree::{LineType, TreeLine, TreeLineView};
use crate::ui::confirm::{prompt_of, render_confirmation_prompt};
use crate::widgets::confirm_prompt::{ConfirmPrompt, ConfirmPromptView};
use crate::widgets::help_panel::{no_style, span_views, unstyled, Span, SpanView};

verus! {

broadcast use vstd::std_specs::hash::group_hash_axioms;

/// The name of a mode as the status bar shows it.
pub open spec fn mode_text(mode: Mode) -> Seq<char> {
    match mode {
        Mode::Window => "-- WINDOW --"@,
        Mode::Rename => "-- RENAME --"@,
        Mode::Search => "-- SEARCH --"@,
        Mode::QuickSearch => "-- QUICK --"@,
        Mode::Session => "-- SESSION --"@,
        Mode::DeleteConfirm => "-- CONFIRM --"@,
    }
}

/// The name of a mode as the status bar shows it.
pub fn get_mode_text(mode: &Mode) -> (text: &'static str)
    ensures
        text@ == mode_text(*mode),
{
    match mode {
        Mode::Window => "-- WINDOW --",
        Mode::Rename => "-- RENAME --",
        Mode::Search => "-- SEARCH --",
        Mode::QuickSearch => "-- QUICK --",
        Mode::Session => "-- SESSION --",
        Mode::DeleteConfirm => "-- CONFIRM --",
    }
}

/// The style in which the name of a mode is shown: that of the border of
/// the part of the screen that the mode works in.
pub open spec fn mode_style(mode: Mode, colors: ColorConfigView) -> Style {
    match mode {
        Mode::Window => style_of(colors.border_list),
        Mode::Rename => style_of(colors.border_prompt),
        Mode::Search => style_of(colors.border_search),
        Mode::QuickSearch => style_of(colors.border_search),
        Mode::Session => style_of(colors.border_list),
        Mode::DeleteConfirm => style_of(colors.border_prompt),
    }
}

/// The style in which the name of a mode is shown.
pub fn get_mode_style(mode: &Mode, colors: &ColorConfig) -> (style: Style)
    ensures
        style == mode_style(*mode, colors@),
{
    match mode {
        Mode::Window => colors.border_list.to_ratatui_style(),
        Mode::Rename => colors.border_prompt.to_ratatui_style(),
        Mode::Search => colors.border_search.to_ratatui_style(),
        Mode::QuickSearch => colors.border_search.to_ratatui_style(),
        Mode::Session => colors.border_list.to_ratatui_style(),
        Mode::DeleteConfirm => colors.border_prompt.to_ratatui_style(),
    }
}

/// Whether the character at place `i` is one of the matched ones.
pub open spec fn marked(places: Seq<usize>, i: int) -> bool {
    exists|k: int| 0 <= k < places.len() && places[k] == i
}

/// Where the run of characters that starts at `from` ends: at the first
/// later place that is marked otherwise, or at the end of the text.
pub open spec fn run_end(places: Seq<usize>, len: int, from: int, at: int) -> int
    decreases len - at,
{
    if at >= len {
        len
    } else if marked(places, at) != marked(places, from) {
        at
    } else {
        run_end(places, len, from, at + 1)
    }
}

/// The text from `from` on, cut into runs of characters that are all
/// matched or all not, the matched ones in the highlight style.
pub open spec fn highlighted_from(
    text: Seq<char>,
    places: Seq<usize>,
    normal: Style,
    highlight: Style,
    from: int,
) -> Seq<SpanView>
    decreases text.len() - from,
{
    if from < 0 || from >= text.len() {
        Seq::empty()
    } else {
        let end = run_end(places, text.len() as int, from, from + 1);
        if from < end <= text.len() {
            seq![
                SpanView {
                    content: text.subrange(from, end),
                    style: if marked(places, from) {
                        highlight
                    } else {
                        normal
                    },
                },
            ] + highlighted_from(text, places, normal, highlight, end)
        } else {
            Seq::empty()
        }
    }
}

/// Whether the place is one of the matched ones.
fn is_marked(places: &Vec<usize>, i: usize) -> (b: bool)
    ensures
        b == marked(places@, i as int),
{
    let mut k: usize = 0;
    while k < places.len()
        invariant
            k <= places.len(),
            forall|j: int| 0 <= j < k ==> places[j] != i,
        decreases places.len() - k,
    {
        if places[k] == i {
            return true;
        }
        k += 1;
    }
    false
}

/// The text cut into runs of matched and unmatched characters, each run
/// in its style.
pub fn create_highlighted_spans(
    text: &str,
    match_indices: &Vec<usize>,
    normal_style: Style,
    highlight_style: Style,
) -> (spans: Vec<Span>)
    ensures
        span_views(spans@) == highlighted_from(
            text@,
            match_indices@,
            normal_style,
            highlight_style,
            0,
        ),
{
    let v: Vec<char> = chars_of(text);
    let mut spans: Vec<Span> = Vec::new();
    let mut from: usize = 0;
    let ghost whole = highlighted_from(text@, match_indices@, normal_style, highlight_style, 0);
    assert(span_views(spans@) + whole =~= whole);
    while from < v.len()
        invariant
            from <= v.len(),
            v@ == text@,
            whole == highlighted_from(text@, match_indices@, normal_style, highlight_style, 0),
            whole == span_views(spans@) + highlighted_from(
                text@,
                match_indices@,
                normal_style,
                highlight_style,
                from as int,
            ),
        decreases v.len() - from,
    {
        let on: bool = is_marked(match_indices, from);
        let mut end: usize = from + 1;
        while end < v.len() && is_marked(match_indices, end) == on
            invariant
                from < end <= v.len(),
                on == marked(match_indices@, from as int),
                run_end(match_indices@, v.len() as int, from as int, from + 1) == run_end(
                    match_indices@,
                    v.len() as int,
                    from as int,
                    end as int,
                ),
            decreases v.len() - end,
        {
            end += 1;
        }
        let ghost before = span_views(spans@);
        let span = Span {
            content: string_of(&v, from, end),
            style: if on {
                highlight_style
            } else {
                normal_style
            },
        };
        let ghost added = span@;
        spans.push(span);
        proof {
            assert(span_views(spans@) =~= before.push(added));
            let rest = highlighted_from(
                text@,
                match_indices@,
                normal_style,
                highlight_style,
                end as int,
            );
            assert(before + (seq![added] + rest) =~= before.push(added) + rest);
        }
        from = end;
    }
    assert(highlighted_from(text@, match_indices@, normal_style, highlight_style, from as int)
        =~= Seq::<SpanView>::empty());
    assert(span_views(spans@) + Seq::<SpanView>::empty() =~= span_views(spans@));
    spans
}

/// Whether the text holds a colon.
pub open spec fn has_colon(s: Seq<char>) -> bool {
    exists|i: int| 0 <= i < s.len() && s[i] == ':'
}

/// Whether the text holds a colon.
fn contains_colon(s: &str) -> (b: bool)
    ensures
        b == has_colon(s@),
{
    let v: Vec<char> = chars_of(s);
    let mut i: usize = 0;
    while i < v.len()
        invariant
            i <= v.len(),
            v@ == s@,
            forall|j: int| 0 <= j < i ==> v[j] != ':',
        decreases v.len() - i,
    {
        if v[i] == ':' {
            return true;
        }
        i += 1;
    }
    false
}

/// The spans of a line of the tree for a match of the quick search. The
/// places count the characters of the text that was searched; they are
/// shown on the line only where the line can hold that text: where the
/// searched text has a colon and the line has none, the line stays plain.
pub open spec fn content_spans(
    display_content: Seq<char>,
    searched: Seq<char>,
    places: Seq<usize>,
    normal: Style,
    highlight: Style,
) -> Seq<SpanView> {
    if has_colon(searched) && !has_colon(display_content) {
        seq![SpanView { content: display_content, style: normal }]
    } else {
        highlighted_from(display_content, places, normal, highlight, 0)
    }
}

/// The spans of a line of the tree for a match of the quick search.
pub fn create_highlighted_spans_for_content(
    display_content: &str,
    search_text: &str,
    match_indices: &Vec<usize>,
    normal_style: Style,
    highlight_style: Style,
) -> (spans: Vec<Span>)
    ensures
        span_views(spans@) == content_spans(
            display_content@,
            search_text@,
            match_indices@,
            normal_style,
            highlight_style,
        ),
{
    if contains_colon(search_text) && !contains_colon(display_content) {
        let mut spans: Vec<Span> = Vec::new();
        spans.push(Span { content: String::from_str(display_content), style: normal_style });
        assert(span_views(spans@) =~= seq![
            SpanView { content: display_content@, style: normal_style },
        ]);
        spans
    } else {
        create_highlighted_spans(display_content, match_indices, normal_style, highlight_style)
    }
}

/// The width of a line number.
pub const LINE_NUMBER_WIDTH: usize = 3;

/// The absolute value of a number.
pub open spec fn magnitude(n: int) -> nat {
    if n < 0 {
        (-n) as nat
    } else {
        n as nat
    }
}

/// The text before a line of the tree: for the selected window a zero at
/// the left of the number's width, for another window its distance from
/// the selected one at the right of it, for any other line blanks; then
/// the padding.
pub open spec fn number_text(relative: Option<i32>, padding: nat) -> Seq<char> {
    match relative {
        Some(n) => if n == 0 {
            left_aligned(seq!['0'], LINE_NUMBER_WIDTH as nat) + blanks(padding)
        } else {
            right_aligned(decimal(magnitude(n as int)), LINE_NUMBER_WIDTH as nat) + blanks(padding)
        },
        None => blanks(LINE_NUMBER_WIDTH as nat) + blanks(padding),
    }
}

/// The text before a line of the tree.
pub fn line_number_text(relative: Option<i32>, padding: usize) -> (text: String)
    ensures
        text@ == number_text(relative, padding as nat),
{
    let pad: String = spaces(padding);
    let mut text: String = match relative {
        Some(n) => {
            if n == 0 {
                proof {
                    reveal_strlit("0  ");
                }
                assert("0  "@ =~= left_aligned(seq!['0'], LINE_NUMBER_WIDTH as nat));
                String::from_str("0  ")
            } else {
                let size: u128 = if n < 0 {
                    (-(n as i64)) as u128
                } else {
                    n as u128
                };
                let digits: String = decimal_text(size);
                let count: usize = digits.as_str().unicode_len();
                if count < LINE_NUMBER_WIDTH {
                    let mut padded: String = spaces(LINE_NUMBER_WIDTH - count);
                    padded.append(digits.as_str());
                    padded
                } else {
                    digits
                }
            }
        },
        None => spaces(LINE_NUMBER_WIDTH),
    };
    text.append(pad.as_str());
    text
}

/// The style of the text before a line of the tree.
pub open spec fn number_style(relative: Option<i32>, config: crate::config::ConfigView) -> Style {
    match relative {
        Some(n) => if n == 0 {
            style_of(config.line_numbers.current_line_color)
        } else {
            style_of(config.line_numbers.other_lines_color)
        },
        None => no_style(),
    }
}

/// The style of a line of the tree: one for the selected line, one for
/// the line of an active window, one for any other, by the kind of line.
pub open spec fn line_style(line: TreeLineView, selected: bool, colors: ColorConfigView) -> Style {
    match line.line_type {
        LineType::Session => if selected {
            style_of(colors.session_selected)
        } else {
            style_of(colors.session)
        },
        LineType::Window => if selected {
            style_of(colors.window_selected)
        } else if line.window is Some && line.window->0.active {
            style_of(colors.window_active)
        } else {
            style_of(colors.window_inactive)
        },
    }
}

/// The style of a line of the tree.
pub fn style_of_line(line: &TreeLine, selected: bool, colors: &ColorConfig) -> (style: Style)
    ensures
        style == line_style(line@, selected, colors@),
{
    match line.line_type {
        LineType::Session => if selected {
            colors.session_selected.to_ratatui_style()
        } else {
            colors.session.to_ratatui_style()
        },
        LineType::Window => {
            let active: bool = match &line.window {
                Some(w) => w.active,
                None => false,
            };
            if selected {
                colors.window_selected.to_ratatui_style()
            } else if active {
                colors.window_active.to_ratatui_style()
            } else {
                colors.window_inactive.to_ratatui_style()
            }
        },
    }
}

/// A row of a list: its spans and the style of the whole row.
#[derive(Debug)]
pub struct Row {
    pub spans: Vec<Span>,
    pub style: Style,
}

/// The mathematical value of a `Row`.
pub struct RowView {
    pub spans: Seq<SpanView>,
    pub style: Style,
}

impl View for Row {
    type V = RowView;

    open spec fn view(&self) -> RowView {
        RowView { spans: span_views(self.spans@), style: self.style }
    }
}

/// The values of a sequence of rows.
pub open spec fn row_views(rows: Seq<Row>) -> Seq<RowView> {
    Seq::new(rows.len(), |i: int| rows[i]@)
}

/// The number shown before line `i`, if it is a window line with one.
pub open spec fn relative_number(app: AppView, i: int) -> Option<i32> {
    let numbers = line_numbers(app.tree_lines, app.selected_index);
    if app.tree_lines[i].line_type is Window && numbers.dom().contains(i as usize) {
        Some(numbers[i as usize])
    } else {
        None
    }
}

/// The span before line `i`: its number, or blanks.
pub open spec fn number_span(app: AppView, config: crate::config::ConfigView, i: int) -> SpanView {
    SpanView {
        content: number_text(relative_number(app, i), config.line_numbers.padding as nat),
        style: number_style(relative_number(app, i), config),
    }
}

/// The row of line `i` in the tree view.
pub open spec fn tree_row(app: AppView, config: crate::config::ConfigView, i: int) -> RowView {
    RowView {
        spans: seq![
            number_span(app, config, i),
            SpanView { content: app.tree_lines[i].content, style: no_style() },
        ],
        style: line_style(app.tree_lines[i], i == app.selected_index, config.colors),
    }
}

/// The index behind the last visible line.
pub open spec fn visible_end(app: AppView, viewport_height: int) -> int {
    if app.scroll_offset + viewport_height <= app.tree_lines.len() {
        app.scroll_offset + viewport_height
    } else {
        app.tree_lines.len() as int
    }
}

/// The rows of the tree view: one for each visible line, from the first
/// visible line on.
pub open spec fn tree_rows(app: AppView, config: crate::config::ConfigView, viewport_height: int) -> Seq<
    RowView,
> {
    if app.scroll_offset < visible_end(app, viewport_height) {
        Seq::new(
            (visible_end(app, viewport_height) - app.scroll_offset) as nat,
            |k: int| tree_row(app, config, app.scroll_offset + k),
        )
    } else {
        Seq::empty()
    }
}

/// The span before line `i`.
fn number_span_of(app: &App, numbers: &HashMap<usize, i32>, i: usize) -> (span: Span)
    requires
        i < app.tree_lines.len(),
        numbers@ == line_numbers(app@.tree_lines, app@.selected_index),
    ensures
        span@ == number_span(app@, app.config@, i as int),
{
    let relative: Option<i32> = match app.tree_lines[i].line_type {
        LineType::Window => match numbers.get(&i) {
            Some(n) => Some(*n),
            None => None,
        },
        LineType::Session => None,
    };
    assert(relative == relative_number(app@, i as int));
    let style: Style = match relative {
        Some(n) => if n == 0 {
            app.config.line_numbers.current_line_color.to_ratatui_style()
        } else {
            app.config.line_numbers.other_lines_color.to_ratatui_style()
        },
        None => unstyled(),
    };
    Span { content: line_number_text(relative, app.config.line_numbers.padding), style }
}

/// The rows of the tree view for a view of the given height.
pub fn draw_main_content(app: &App, viewport_height: usize) -> (rows: Vec<Row>)
    requires
        app.tree_lines.len() <= i32::MAX,
    ensures
        row_views(rows@) == tree_rows(app@, app.config@, viewport_height as int),
{
    let numbers: HashMap<usize, i32> = app.get_window_line_numbers();
    let start: usize = app.scroll_offset;
    let end: usize = if start <= app.tree_lines.len() && viewport_height <= app.tree_lines.len()
        - start {
        start + viewport_height
    } else {
        app.tree_lines.len()
    };
    assert(end == visible_end(app@, viewport_height as int));
    let mut rows: Vec<Row> = Vec::new();
    if start >= end {
        assert(row_views(rows@) =~= tree_rows(app@, app.config@, viewport_height as int));
        return rows;
    }
    let mut i: usize = start;
    while i < end
        invariant
            start <= i <= end <= app.tree_lines.len(),
            numbers@ == line_numbers(app@.tree_lines, app@.selected_index),
            rows.len() == i - start,
            forall|k: int|
                0 <= k < rows.len() ==> rows[k]@ == tree_row(app@, app.config@, start + k),
        decreases end - i,
    {
        let line: &TreeLine = &app.tree_lines[i];
        let mut spans: Vec<Span> = Vec::new();
        spans.push(number_span_of(app, &numbers, i));
        spans.push(Span { content: line.content.clone(), style: unstyled() });
        let row = Row {
            spans,
            style: style_of_line(line, i == app.selected_index, &app.config.colors),
        };
        assert(row@.spans =~= tree_row(app@, app.config@, i as int).spans);
        rows.push(row);
        i += 1;
    }
    assert(row_views(rows@) =~= tree_rows(app@, app.config@, viewport_height as int));
    rows
}

/// The place of the selected line among the visible rows, if it is visible.
pub fn visible_selection(app: &App, viewport_height: usize) -> (place: Option<usize>)
    ensures
        match place {
            Some(p) => app.scroll_offset <= app.selected_index < visible_end(
                app@,
                viewport_height as int,
            ) && p == app.selected_index - app.scroll_offset,
            None => !(app.scroll_offset <= app.selected_index < visible_end(
                app@,
                viewport_height as int,
            )),
        },
{
    let start: usize = app.scroll_offset;
    let end: usize = if start <= app.tree_lines.len() && viewport_height <= app.tree_lines.len()
        - start {
        start + viewport_height
    } else {
        app.tree_lines.len()
    };
    if app.selected_index >= start && app.selected_index < end {
        Some(app.selected_index - start)
    } else {
        None
    }
}

/// Whether the quick search found line `i`.
pub open spec fn is_match(app: AppView, i: int) -> bool {
    exists|k: int| 0 <= k < app.quick_search_results.len() && app.quick_search_results[k] == i
}

/// Whether line `i` is the result that the quick search has selected.
pub open spec fn is_chosen(app: AppView, i: int) -> bool {
    0 <= app.quick_search_selected_index < app.quick_search_results.len()
        && app.quick_search_results[app.quick_search_selected_index] == i
}

/// The style of line `i` during a quick search: that of the chosen result
/// first, then that of the selected line, then that of a match, then the
/// line's own.
pub open spec fn quick_style(app: AppView, colors: ColorConfigView, i: int) -> Style {
    if is_chosen(app, i) {
        style_of(colors.quick_search_selected)
    } else if i == app.selected_index {
        line_style(app.tree_lines[i], true, colors)
    } else if is_match(app, i) {
        style_of(colors.quick_search_match)
    } else {
        line_style(app.tree_lines[i], false, colors)
    }
}

/// The text of a line that the quick search shows the match on: the text
/// that was searched, or the line's content where it has none.
pub open spec fn shown_text(line: TreeLineView) -> Seq<char> {
    match search_text(line) {
        Some(text) => text,
        None => line.content,
    }
}

/// The spans of the content of line `i` during a quick search: the
/// matched characters are shown on a match that is not the chosen one,
/// while the query is not empty; else the content is one span.
pub open spec fn quick_content(app: AppView, colors: ColorConfigView, i: int) -> Seq<SpanView> {
    let line = app.tree_lines[i];
    let base = quick_style(app, colors, i);
    let plain = seq![SpanView { content: line.content, style: base }];
    if is_match(app, i) && !is_chosen(app, i) && app.quick_search_query.len() > 0 {
        match ignore_case_indices(shown_text(line), app.quick_search_query) {
            Some((score, places)) => content_spans(
                line.content,
                shown_text(line),
                places,
                base,
                style_of(colors.search_highlight),
            ),
            None => plain,
        }
    } else {
        plain
    }
}

/// The spans of line `i` during a quick search: its number, then its content.
pub open spec fn quick_row(app: AppView, config: crate::config::ConfigView, i: int) -> Seq<
    SpanView,
> {
    seq![number_span(app, config, i)] + quick_content(app, config.colors, i)
}

/// The rows of the tree during a quick search: one for each line.
pub open spec fn quick_rows(app: AppView, config: crate::config::ConfigView) -> Seq<Seq<SpanView>> {
    Seq::new(app.tree_lines.len(), |i: int| quick_row(app, config, i))
}

/// The values of a sequence of rows of spans.
pub open spec fn span_rows(rows: Seq<Vec<Span>>) -> Seq<Seq<SpanView>> {
    Seq::new(rows.len(), |i: int| span_views(rows[i]@))
}

/// Whether the quick search found line `i`.
fn found_line(app: &App, i: usize) -> (b: bool)
    ensures
        b == is_match(app@, i as int),
{
    let mut k: usize = 0;
    while k < app.quick_search_results.len()
        invariant
            k <= app.quick_search_results.len(),
            forall|j: int| 0 <= j < k ==> app.quick_search_results[j] != i,
        decreases app.quick_search_results.len() - k,
    {
        if app.quick_search_results[k] == i {
            assert(app@.quick_search_results[k as int] == i as int);
            return true;
        }
        k += 1;
    }
    false
}

/// The spans of the content of line `i` during a quick search.
fn quick_content_of(app: &App, i: usize) -> (spans: Vec<Span>)
    requires
        i < app.tree_lines.len(),
    ensures
        span_views(spans@) == quick_content(app@, app.config.colors@, i as int),
{
    let line: &TreeLine = &app.tree_lines[i];
    let found: bool = found_line(app, i);
    let chosen: bool = app.quick_search_selected_index < app.quick_search_results.len()
        && app.quick_search_results[app.quick_search_selected_index] == i;
    let colors = &app.config.colors;
    let base: Style = if chosen {
        colors.quick_search_selected.to_ratatui_style()
    } else if i == app.selected_index {
        style_of_line(line, true, colors)
    } else if found {
        colors.quick_search_match.to_ratatui_style()
    } else {
        style_of_line(line, false, colors)
    };
    assert(base == quick_style(app@, colors@, i as int));
    if found && !chosen && !app.quick_search_query.as_str().is_empty() {
        let searched: String = match search_text_of(line) {
            Some(text) => text,
            None => line.content.clone(),
        };
        match fuzzy_indices_ignoring_case(searched.as_str(), app.quick_search_query.as_str()) {
            Some((_, places)) => {
                return create_highlighted_spans_for_content(
                    line.content.as_str(),
                    searched.as_str(),
                    &places,
                    base,
                    colors.search_highlight.to_ratatui_style(),
                );
            },
            None => {},
        }
    }
    let mut spans: Vec<Span> = Vec::new();
    spans.push(Span { content: line.content.clone(), style: base });
    assert(span_views(spans@) =~= seq![SpanView { content: line@.content, style: base }]);
    spans
}

/// The rows of the tree during a quick search.
pub fn draw_main_content_with_quick_search_highlights(app: &App) -> (rows: Vec<Vec<Span>>)
    requires
        app.tree_lines.len() <= i32::MAX,
    ensures
        span_rows(rows@) == quick_rows(app@, app.config@),
{
    let numbers: HashMap<usize, i32> = app.get_window_line_numbers();
    let mut rows: Vec<Vec<Span>> = Vec::new();
    let mut i: usize = 0;
    while i < app.tree_lines.len()
        invariant
            i <= app.tree_lines.len(),
            numbers@ == line_numbers(app@.tree_lines, app@.selected_index),
            rows.len() == i,
            forall|k: int| 0 <= k < i ==> span_views(rows[k]@) == quick_row(app@, app.config@, k),
        decreases app.tree_lines.len() - i,
    {
        let mut spans: Vec<Span> = Vec::new();
        spans.push(number_span_of(app, &numbers, i));
        let ghost head = span_views(spans@);
        assert(head =~= seq![number_span(app@, app.config@, i as int)]);
        let mut content: Vec<Span> = quick_content_of(app, i);
        let ghost tail = span_views(content@);
        spans.append(&mut content);
        assert(span_views(spans@) =~= head + tail);
        rows.push(spans);
        i += 1;
    }
    assert(span_rows(rows@) =~= quick_rows(app@, app.config@));
    rows
}

/// What follows the text of a search result: the session and the path.
pub open spec fn result_trailer(result: ResultView) -> Seq<char> {
    " → "@ + result.session_name + " ("@ + result.full_path + ")"@
}

/// The spans of result `i` of the project search: its text with the
/// matched characters shown, then the session and the path.
pub open spec fn result_row(app: AppView, colors: ColorConfigView, i: int) -> Seq<SpanView> {
    let result = app.search_results[i];
    let base = if i == app.search_selected_index {
        style_of(colors.window_selected)
    } else {
        style_of(colors.window_inactive)
    };
    highlighted_from(
        result.display_text,
        result.match_indices,
        base,
        style_of(colors.search_highlight),
        0,
    ).push(SpanView { content: result_trailer(result), style: base })
}

/// The rows of the results of the project search.
pub open spec fn result_rows(app: AppView, colors: ColorConfigView) -> Seq<Seq<SpanView>> {
    Seq::new(app.search_results.len(), |i: int| result_row(app, colors, i))
}

/// The rows of the results of the project search.
pub fn draw_search_interface(app: &App) -> (rows: Vec<Vec<Span>>)
    ensures
        span_rows(rows@) == result_rows(app@, app.config.colors@),
{
    let colors = &app.config.colors;
    let mut rows: Vec<Vec<Span>> = Vec::new();
    let mut i: usize = 0;
    while i < app.search_results.len()
        invariant
            i <= app.search_results.len(),
            rows.len() == i,
            forall|k: int| 0 <= k < i ==> span_views(rows[k]@) == result_row(app@, colors@, k),
        decreases app.search_results.len() - i,
    {
        let result: &SearchResult = &app.search_results[i];
        let base: Style = if i == app.search_selected_index {
            colors.window_selected.to_ratatui_style()
        } else {
            colors.window_inactive.to_ratatui_style()
        };
        let mut spans: Vec<Span> = create_highlighted_spans(
            result.display_text.as_str(),
            &result.match_indices,
            base,
            colors.search_highlight.to_ratatui_style(),
        );
        let mut trailer: String = String::from_str(" → ");
        trailer.append(result.session_name.as_str());
        trailer.append(" (");
        trailer.append(result.full_path.as_str());
        trailer.append(")");
        let ghost before = span_views(spans@);
        let last = Span { content: trailer, style: base };
        let ghost added = last@;
        spans.push(last);
        assert(span_views(spans@) =~= before.push(added));
        rows.push(spans);
        i += 1;
    }
    assert(span_rows(rows@) =~= result_rows(app@, colors@));
    rows
}

/// How many windows the first `upto` sessions hold.
pub open spec fn window_count(sessions: Seq<SessionView>, upto: int) -> nat
    decreases upto,
{
    if upto <= 0 {
        0
    } else {
        window_count(sessions, upto - 1) + sessions[upto - 1].windows.len()
    }
}

/// The text at the right of the status bar: what went wrong, or how many
/// sessions and windows there are.
pub open spec fn status_text(app: AppView) -> Seq<char> {
    match app.error_message {
        Some(message) => " "@ + message,
        None => " Sessions: "@ + decimal(app.sessions.len()) + " | Windows: "@ + decimal(
            window_count(app.sessions, app.sessions.len() as int),
        ),
    }
}

/// The style of the text at the right of the status bar.
pub open spec fn status_style(app: AppView, colors: ColorConfigView) -> Style {
    if app.error_message is Some {
        style_of(colors.error_text)
    } else {
        style_of(colors.status_text)
    }
}

/// The text at the right of the status bar, and its style.
pub fn draw_status_bar(app: &App) -> (span: Span)
    ensures
        span@ == (SpanView {
            content: status_text(app@),
            style: status_style(app@, app.config.colors@),
        }),
{
    match &app.error_message {
        Some(message) => {
            let mut text: String = String::from_str(" ");
            text.append(message.as_str());
            Span { content: text, style: app.config.colors.error_text.to_ratatui_style() }
        },
        None => {
            let ghost sessions = session_views(app.sessions@);
            let mut windows: u128 = 0;
            let mut i: usize = 0;
            while i < app.sessions.len()
                invariant
                    i <= app.sessions.len(),
                    sessions == session_views(app.sessions@),
                    windows == window_count(sessions, i as int),
                    windows <= i * 0x1_0000_0000_0000_0000,
                decreases app.sessions.len() - i,
            {
                assert(sessions[i as int].windows.len() == app.sessions[i as int].windows.len());
                windows = windows + app.sessions[i].windows.len() as u128;
                i += 1;
            }
            let mut text: String = String::from_str(" Sessions: ");
            text.append(decimal_text(app.sessions.len() as u128).as_str());
            text.append(" | Windows: ");
            text.append(decimal_text(windows).as_str());
            Span { content: text, style: app.config.colors.status_text.to_ratatui_style() }
        },
    }
}

/// The text at the right of the status bar during a project search: how
/// many results there are.
pub fn draw_search_status_bar(app: &App) -> (span: Span)
    ensures
        span@ == (SpanView {
            content: " Results: "@ + decimal(app.search_results.len() as nat) + " "@,
            style: style_of(app.config.colors.status_text@),
        }),
{
    let mut text: String = String::from_str(" Results: ");
    text.append(decimal_text(app.search_results.len() as u128).as_str());
    text.append(" ");
    Span { content: text, style: app.config.colors.status_text.to_ratatui_style() }
}

/// The line in which a query is typed: a label and the query.
pub fn draw_query(query: &str) -> (text: String)
    ensures
        text@ == "Search: "@ + query@,
{
    let mut text: String = String::from_str("Search: ");
    text.append(query);
    text
}

/// What is to be painted.
#[derive(Debug)]
pub enum Screen {
    /// The tree with the status bar, and the popup where one is open.
    Tree { rows: Vec<Row>, selected: Option<usize>, status: Span, prompt: Option<ConfirmPrompt> },
    /// The project search: the query, the results and the status bar.
    Search { query: String, results: Vec<Vec<Span>>, status: Span },
    /// The quick search: the query, all lines of the tree and the status bar.
    QuickSearch { query: String, rows: Vec<Vec<Span>>, status: Span },
}

/// The mathematical value of a `Screen`.
pub enum ScreenView {
    Tree {
        rows: Seq<RowView>,
        selected: Option<usize>,
        status: SpanView,
        prompt: Option<ConfirmPromptView>,
    },
    Search { query: Seq<char>, results: Seq<Seq<SpanView>>, status: SpanView },
    QuickSearch { query: Seq<char>, rows: Seq<Seq<SpanView>>, status: SpanView },
}

impl View for Screen {
    type V = ScreenView;

    open spec fn view(&self) -> ScreenView {
        match self {
            Screen::Tree { rows, selected, status, prompt } => ScreenView::Tree {
                rows: row_views(rows@),
                selected: *selected,
                status: status@,
                prompt: match prompt {
                    Some(p) => Some(p@),
                    None => None,
                },
            },
            Screen::Search { query, results, status } => ScreenView::Search {
                query: query@,
                results: span_rows(results@),
                status: status@,
            },
            Screen::QuickSearch { query, rows, status } => ScreenView::QuickSearch {
                query: query@,
                rows: span_rows(rows@),
                status: status@,
            },
        }
    }
}

/// Whether the tree is scrolled before it is painted in the mode.
pub open spec fn scrolls(mode: Mode) -> bool {
    mode is Window || mode is Rename || mode is DeleteConfirm
}

/// The state as it is painted: scrolled to the selection in the modes
/// that scroll.
pub open spec fn painted(app: AppView, viewport_height: int) -> AppView {
    if scrolls(app.mode) {
        app.with_scroll(viewport_height)
    } else {
        app
    }
}

/// The place of the selected line among the visible rows, if it is visible.
pub open spec fn selected_row(app: AppView, viewport_height: int) -> Option<usize> {
    if app.scroll_offset <= app.selected_index < visible_end(app, viewport_height) {
        Some((app.selected_index - app.scroll_offset) as usize)
    } else {
        None
    }
}

/// The status bar's text at the right, with its style.
pub open spec fn status_span(app: AppView, colors: ColorConfigView) -> SpanView {
    SpanView { content: status_text(app), style: status_style(app, colors) }
}

/// The tree as it is painted: its visible rows, the place of the
/// selection among them, the status bar, and the popup where one is open.
pub open spec fn tree_screen(app: AppView, config: crate::config::ConfigView, viewport_height: int) -> ScreenView {
    ScreenView::Tree {
        rows: tree_rows(app, config, viewport_height),
        selected: selected_row(app, viewport_height),
        status: status_span(app, config.colors),
        prompt: if app.show_popup {
            prompt_of(app, config.colors)
        } else {
            None
        },
    }
}

/// What is painted for a state in a view of the given height.
pub open spec fn screen_of(app: AppView, config: crate::config::ConfigView, viewport_height: int) -> ScreenView {
    match app.mode {
        Mode::Search => ScreenView::Search {
            query: "Search: "@ + app.search_query,
            results: result_rows(app, config.colors),
            status: SpanView {
                content: " Results: "@ + decimal(app.search_results.len()) + " "@,
                style: style_of(config.colors.status_text),
            },
        },
        Mode::QuickSearch => ScreenView::QuickSearch {
            query: "Search: "@ + app.quick_search_query,
            rows: quick_rows(app, config),
            status: status_span(app, config.colors),
        },
        _ => tree_screen(app, config, viewport_height),
    }
}

/// What is to be painted for the state in a view whose list is of the
/// given height. In the window mode and under its popups the tree is
/// first scrolled so that the selection shows.
pub fn draw(app: &mut App, viewport_height: usize) -> (screen: Screen)
    requires
        old(app).tree_lines.len() <= i32::MAX,
    ensures
        final(app)@ == painted(old(app)@, viewport_height as int),
        screen@ == screen_of(final(app)@, final(app).config@, viewport_height as int),
{
    match app.mode {
        Mode::Search => Screen::Search {
            query: draw_query(app.search_query.as_str()),
            results: draw_search_interface(app),
            status: draw_search_status_bar(app),
        },
        Mode::QuickSearch => Screen::QuickSearch {
            query: draw_query(app.quick_search_query.as_str()),
            rows: draw_main_content_with_quick_search_highlights(app),
            status: draw_status_bar(app),
        },
        Mode::Session => draw_session_mode_interface(app, viewport_height),
        _ => {
            app.update_scroll_offset(viewport_height);
            draw_session_mode_interface(app, viewport_height)
        },
    }
}

/// The tree with the status bar and the popup, as the state stands.
pub fn draw_session_mode_interface(app: &App, viewport_height: usize) -> (screen: Screen)
    requires
        app.tree_lines.len() <= i32::MAX,
    ensures
        screen@ == tree_screen(app@, app.config@, viewport_height as int),
{
    Screen::Tree {
        rows: draw_main_content(app, viewport_height),
        selected: visible_selection(app, viewport_height),
        status: draw_status_bar(app),
        prompt: if app.show_popup {
            render_confirmation_prompt(app)
        } else {
            None
        },
    }
}

} // verus!
