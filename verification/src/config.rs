//! The configuration: colours, line numbers, search patterns.

use vstd::prelude::*;
use vstd::string::*;

use crate::text::{chars_of, views};

verus! {

/// How a piece of the screen is drawn, as the configuration file states it.
#[derive(Debug)]
pub struct StyleConfig {
    pub fg: Option<String>,
    pub bg: Option<String>,
    pub bold: Option<bool>,
    pub italic: Option<bool>,
    pub underline: Option<bool>,
    pub dim: Option<bool>,
    pub reversed: Option<bool>,
}

/// The mathematical value of a `StyleConfig`.
pub struct StyleConfigView {
    pub fg: Option<Seq<char>>,
    pub bg: Option<Seq<char>>,
    pub bold: Option<bool>,
    pub italic: Option<bool>,
    pub underline: Option<bool>,
    pub dim: Option<bool>,
    pub reversed: Option<bool>,
}

/// The value of a text that may be absent.
pub open spec fn text_view(s: Option<String>) -> Option<Seq<char>> {
    match s {
        Some(t) => Some(t@),
        None => None,
    }
}

/// A copy of a text that may be absent.
pub fn copy_text(s: &Option<String>) -> (r: Option<String>)
    ensures
        text_view(r) == text_view(*s),
{
    match s {
        Some(t) => Some(t.clone()),
        None => None,
    }
}

impl View for StyleConfig {
    type V = StyleConfigView;

    open spec fn view(&self) -> StyleConfigView {
        StyleConfigView {
            fg: text_view(self.fg),
            bg: text_view(self.bg),
            bold: self.bold,
            italic: self.italic,
            underline: self.underline,
            dim: self.dim,
            reversed: self.reversed,
        }
    }
}

impl Clone for StyleConfig {
    fn clone(&self) -> (r: Self)
        ensures
            r@ == self@,
    {
        StyleConfig {
            fg: copy_text(&self.fg),
            bg: copy_text(&self.bg),
            bold: self.bold,
            italic: self.italic,
            underline: self.underline,
            dim: self.dim,
            reversed: self.reversed,
        }
    }
}

impl Default for StyleConfig {
    fn default() -> (r: Self)
        ensures
            r@ == plain(None, None, None, None),
    {
        StyleConfig {
            fg: None,
            bg: None,
            bold: None,
            italic: None,
            underline: None,
            dim: None,
            reversed: None,
        }
    }
}

/// The style with these colours, weight and reversal, and nothing else set.
pub open spec fn plain(
    fg: Option<Seq<char>>,
    bg: Option<Seq<char>>,
    bold: Option<bool>,
    reversed: Option<bool>,
) -> StyleConfigView {
    StyleConfigView { fg, bg, bold, italic: None, underline: None, dim: None, reversed }
}

/// The style with these colours, weight and reversal, and nothing else set.
fn style(fg: Option<&str>, bg: Option<&str>, bold: Option<bool>, reversed: Option<bool>) -> (r:
    StyleConfig)
    ensures
        r@ == plain(
            match fg {
                Some(s) => Some(s@),
                None => None,
            },
            match bg {
                Some(s) => Some(s@),
                None => None,
            },
            bold,
            reversed,
        ),
{
    StyleConfig {
        fg: match fg {
            Some(s) => Some(String::from_str(s)),
            None => None,
        },
        bg: match bg {
            Some(s) => Some(String::from_str(s)),
            None => None,
        },
        bold,
        italic: None,
        underline: None,
        dim: None,
        reversed,
    }
}

/// The style of the count typed before a command.
pub fn default_numeric_buffer() -> (r: StyleConfig)
    ensures
        r@ == plain(Some("cyan"@), None, Some(true), None),
{
    style(Some("cyan"), None, Some(true), None)
}

/// The style of the text of a popup.
pub fn default_popup_text() -> (r: StyleConfig)
    ensures
        r@ == plain(Some("white"@), None, None, None),
{
    style(Some("white"), None, None, None)
}

/// The style of the matched characters of a search result.
pub fn default_search_highlight() -> (r: StyleConfig)
    ensures
        r@ == plain(Some("cyan"@), None, Some(true), None),
{
    style(Some("cyan"), None, Some(true), None)
}

/// The style of a line that the quick search found.
pub fn default_quick_search_match() -> (r: StyleConfig)
    ensures
        r@ == plain(None, None, Some(true), None),
{
    style(None, None, Some(true), None)
}

/// The style of the line that the quick search has selected.
pub fn default_quick_search_selected() -> (r: StyleConfig)
    ensures
        r@ == plain(Some("black"@), Some("cyan"@), Some(true), None),
{
    style(Some("black"), Some("cyan"), Some(true), None)
}

/// The style of the highlighted entry of a list.
pub fn default_list_highlight() -> (r: StyleConfig)
    ensures
        r@ == plain(None, None, None, Some(true)),
{
    style(None, None, None, Some(true))
}

/// The styles of the parts of the screen.
#[derive(Debug)]
pub struct ColorConfig {
    pub session: StyleConfig,
    pub window_active: StyleConfig,
    pub window_inactive: StyleConfig,
    pub window_selected: StyleConfig,
    pub session_selected: StyleConfig,
    pub border_list: StyleConfig,
    pub border_prompt: StyleConfig,
    pub border_search: StyleConfig,
    pub help_key: StyleConfig,
    pub help_text: StyleConfig,
    pub status_text: StyleConfig,
    pub error_text: StyleConfig,
    pub popup_border: StyleConfig,
    pub popup_input: StyleConfig,
    pub popup_text: StyleConfig,
    pub numeric_buffer: StyleConfig,
    pub search_highlight: StyleConfig,
    pub quick_search_match: StyleConfig,
    pub quick_search_selected: StyleConfig,
    pub list_highlight: StyleConfig,
}

/// The mathematical value of a `ColorConfig`.
pub struct ColorConfigView {
    pub session: StyleConfigView,
    pub window_active: StyleConfigView,
    pub window_inactive: StyleConfigView,
    pub window_selected: StyleConfigView,
    pub session_selected: StyleConfigView,
    pub border_list: StyleConfigView,
    pub border_prompt: StyleConfigView,
    pub border_search: StyleConfigView,
    pub help_key: StyleConfigView,
    pub help_text: StyleConfigView,
    pub status_text: StyleConfigView,
    pub error_text: StyleConfigView,
    pub popup_border: StyleConfigView,
    pub popup_input: StyleConfigView,
    pub popup_text: StyleConfigView,
    pub numeric_buffer: StyleConfigView,
    pub search_highlight: StyleConfigView,
    pub quick_search_match: StyleConfigView,
    pub quick_search_selected: StyleConfigView,
    pub list_highlight: StyleConfigView,
}

impl View for ColorConfig {
    type V = ColorConfigView;

    open spec fn view(&self) -> ColorConfigView {
        ColorConfigView {
            session: self.session@,
            window_active: self.window_active@,
            window_inactive: self.window_inactive@,
            window_selected: self.window_selected@,
            session_selected: self.session_selected@,
            border_list: self.border_list@,
            border_prompt: self.border_prompt@,
            border_search: self.border_search@,
            help_key: self.help_key@,
            help_text: self.help_text@,
            status_text: self.status_text@,
            error_text: self.error_text@,
            popup_border: self.popup_border@,
            popup_input: self.popup_input@,
            popup_text: self.popup_text@,
            numeric_buffer: self.numeric_buffer@,
            search_highlight: self.search_highlight@,
            quick_search_match: self.quick_search_match@,
            quick_search_selected: self.quick_search_selected@,
            list_highlight: self.list_highlight@,
        }
    }
}

impl Clone for ColorConfig {
    fn clone(&self) -> (r: Self)
        ensures
            r@ == self@,
    {
        ColorConfig {
            session: self.session.clone(),
            window_active: self.window_active.clone(),
            window_inactive: self.window_inactive.clone(),
            window_selected: self.window_selected.clone(),
            session_selected: self.session_selected.clone(),
            border_list: self.border_list.clone(),
            border_prompt: self.border_prompt.clone(),
            border_search: self.border_search.clone(),
            help_key: self.help_key.clone(),
            help_text: self.help_text.clone(),
            status_text: self.status_text.clone(),
            error_text: self.error_text.clone(),
            popup_border: self.popup_border.clone(),
            popup_input: self.popup_input.clone(),
            popup_text: self.popup_text.clone(),
            numeric_buffer: self.numeric_buffer.clone(),
            search_highlight: self.search_highlight.clone(),
            quick_search_match: self.quick_search_match.clone(),
            quick_search_selected: self.quick_search_selected.clone(),
            list_highlight: self.list_highlight.clone(),
        }
    }
}

/// The styles that a configuration starts with.
pub open spec fn default_colors() -> ColorConfigView {
    ColorConfigView {
        session: plain(None, None, Some(true), None),
        window_active: plain(None, None, Some(false), None),
        window_inactive: plain(None, None, None, None),
        window_selected: plain(Some("yellow"@), Some("#1b2433"@), Some(true), None),
        session_selected: plain(None, Some("light_blue"@), Some(true), None),
        border_list: plain(Some("white"@), None, None, None),
        border_prompt: plain(Some("yellow"@), None, None, None),
        border_search: plain(Some("cyan"@), None, None, None),
        help_key: plain(Some("yellow"@), None, Some(true), None),
        help_text: plain(Some("white"@), None, None, None),
        status_text: plain(Some("green"@), None, None, None),
        error_text: plain(Some("red"@), None, None, None),
        popup_border: plain(Some("yellow"@), None, None, None),
        popup_input: plain(Some("white"@), None, None, None),
        popup_text: plain(Some("white"@), None, None, None),
        numeric_buffer: plain(Some("cyan"@), None, Some(true), None),
        search_highlight: plain(Some("cyan"@), None, Some(true), None),
        quick_search_match: plain(None, None, Some(true), None),
        quick_search_selected: plain(Some("black"@), Some("cyan"@), Some(true), None),
        list_highlight: plain(None, None, None, Some(true)),
    }
}

impl Default for ColorConfig {
    fn default() -> (r: Self)
        ensures
            r@ == default_colors(),
    {
        ColorConfig {
            session: style(None, None, Some(true), None),
            window_active: style(None, None, Some(false), None),
            window_inactive: style(None, None, None, None),
            window_selected: style(Some("yellow"), Some("#1b2433"), Some(true), None),
            session_selected: style(None, Some("light_blue"), Some(true), None),
            border_list: style(Some("white"), None, None, None),
            border_prompt: style(Some("yellow"), None, None, None),
            border_search: style(Some("cyan"), None, None, None),
            help_key: style(Some("yellow"), None, Some(true), None),
            help_text: style(Some("white"), None, None, None),
            status_text: style(Some("green"), None, None, None),
            error_text: style(Some("red"), None, None, None),
            popup_border: style(Some("yellow"), None, None, None),
            popup_input: style(Some("white"), None, None, None),
            popup_text: default_popup_text(),
            numeric_buffer: default_numeric_buffer(),
            search_highlight: default_search_highlight(),
            quick_search_match: default_quick_search_match(),
            quick_search_selected: default_quick_search_selected(),
            list_highlight: default_list_highlight(),
        }
    }
}

/// How the numbers before the window lines are drawn.
#[derive(Debug)]
pub struct LineNumberConfig {
    /// The number of blanks between a number and its line.
    pub padding: usize,
    pub current_line_color: StyleConfig,
    pub other_lines_color: StyleConfig,
}

/// The mathematical value of a `LineNumberConfig`.
pub struct LineNumberConfigView {
    pub padding: usize,
    pub current_line_color: StyleConfigView,
    pub other_lines_color: StyleConfigView,
}

impl View for LineNumberConfig {
    type V = LineNumberConfigView;

    open spec fn view(&self) -> LineNumberConfigView {
        LineNumberConfigView {
            padding: self.padding,
            current_line_color: self.current_line_color@,
            other_lines_color: self.other_lines_color@,
        }
    }
}

impl Clone for LineNumberConfig {
    fn clone(&self) -> (r: Self)
        ensures
            r@ == self@,
    {
        LineNumberConfig {
            padding: self.padding,
            current_line_color: self.current_line_color.clone(),
            other_lines_color: self.other_lines_color.clone(),
        }
    }
}

/// The line numbers that a configuration starts with.
pub open spec fn default_line_numbers() -> LineNumberConfigView {
    LineNumberConfigView {
        padding: 5,
        current_line_color: plain(Some("dark_gray"@), None, None, None),
        other_lines_color: plain(Some("dark_gray"@), None, None, None),
    }
}

impl Default for LineNumberConfig {
    fn default() -> (r: Self)
        ensures
            r@ == default_line_numbers(),
    {
        LineNumberConfig {
            padding: 5,
            current_line_color: style(Some("dark_gray"), None, None, None),
            other_lines_color: style(Some("dark_gray"), None, None, None),
        }
    }
}

/// A search pattern as the configuration file states it.
#[derive(Debug)]
pub struct SearchPatternConfig {
    pub name: String,
    pub paths: Vec<String>,
    pub pattern: String,
}

/// The mathematical value of a `SearchPatternConfig`.
pub struct SearchPatternConfigView {
    pub name: Seq<char>,
    pub paths: Seq<Seq<char>>,
    pub pattern: Seq<char>,
}

impl View for SearchPatternConfig {
    type V = SearchPatternConfigView;

    open spec fn view(&self) -> SearchPatternConfigView {
        SearchPatternConfigView {
            name: self.name@,
            paths: views(self.paths@),
            pattern: self.pattern@,
        }
    }
}

/// A copy of a list of texts.
pub fn copy_texts(v: &Vec<String>) -> (r: Vec<String>)
    ensures
        views(r@) == views(v@),
{
    let mut r: Vec<String> = Vec::new();
    let mut i: usize = 0;
    while i < v.len()
        invariant
            i <= v.len(),
            r.len() == i,
            forall|k: int| 0 <= k < i ==> r[k]@ == v[k]@,
        decreases v.len() - i,
    {
        r.push(v[i].clone());
        i += 1;
    }
    assert(views(r@) =~= views(v@));
    r
}

impl Clone for SearchPatternConfig {
    fn clone(&self) -> (r: Self)
        ensures
            r@ == self@,
    {
        SearchPatternConfig {
            name: self.name.clone(),
            paths: copy_texts(&self.paths),
            pattern: self.pattern.clone(),
        }
    }
}

impl Default for SearchPatternConfig {
    fn default() -> (r: Self)
        ensures
            r@ == (SearchPatternConfigView {
                name: "git-style"@,
                paths: Seq::empty(),
                pattern: "{session}/{window}"@,
            }),
    {
        let r = SearchPatternConfig {
            name: String::from_str("git-style"),
            paths: Vec::new(),
            pattern: String::from_str("{session}/{window}"),
        };
        assert(r@.paths =~= Seq::<Seq<char>>::empty());
        r
    }
}

/// The values of a sequence of search patterns.
pub open spec fn pattern_config_views(ps: Seq<SearchPatternConfig>) -> Seq<
    SearchPatternConfigView,
> {
    Seq::new(ps.len(), |i: int| ps[i]@)
}

/// The configuration.
#[derive(Debug)]
pub struct Config {
    pub colors: ColorConfig,
    /// The order in which sessions are listed, where one is set.
    pub session_order: Option<Vec<String>>,
    pub line_numbers: LineNumberConfig,
    /// Directories to search with the pattern of a session directory that
    /// holds window directories; used where no pattern is configured.
    pub search_paths: Vec<String>,
    pub search_patterns: Vec<SearchPatternConfig>,
    /// Whether a window's identifier is shown where its name is ambiguous.
    pub show_window_ids: bool,
}

/// The mathematical value of a `Config`.
pub struct ConfigView {
    pub colors: ColorConfigView,
    pub session_order: Option<Seq<Seq<char>>>,
    pub line_numbers: LineNumberConfigView,
    pub search_paths: Seq<Seq<char>>,
    pub search_patterns: Seq<SearchPatternConfigView>,
    pub show_window_ids: bool,
}

impl View for Config {
    type V = ConfigView;

    open spec fn view(&self) -> ConfigView {
        ConfigView {
            colors: self.colors@,
            session_order: match self.session_order {
                Some(order) => Some(views(order@)),
                None => None,
            },
            line_numbers: self.line_numbers@,
            search_paths: views(self.search_paths@),
            search_patterns: pattern_config_views(self.search_patterns@),
            show_window_ids: self.show_window_ids,
        }
    }
}

impl Clone for Config {
    fn clone(&self) -> (r: Self)
        ensures
            r@ == self@,
    {
        let mut patterns: Vec<SearchPatternConfig> = Vec::new();
        let mut i: usize = 0;
        while i < self.search_patterns.len()
            invariant
                i <= self.search_patterns.len(),
                patterns.len() == i,
                forall|k: int| 0 <= k < i ==> patterns[k]@ == self.search_patterns[k]@,
            decreases self.search_patterns.len() - i,
        {
            patterns.push(self.search_patterns[i].clone());
            i += 1;
        }
        assert(pattern_config_views(patterns@) =~= pattern_config_views(self.search_patterns@));
        Config {
            colors: self.colors.clone(),
            session_order: match &self.session_order {
                Some(order) => Some(copy_texts(order)),
                None => None,
            },
            line_numbers: self.line_numbers.clone(),
            search_paths: copy_texts(&self.search_paths),
            search_patterns: patterns,
            show_window_ids: self.show_window_ids,
        }
    }
}

/// The configuration that a first start writes.
pub open spec fn default_config() -> ConfigView {
    ConfigView {
        colors: default_colors(),
        session_order: None,
        line_numbers: default_line_numbers(),
        search_paths: Seq::empty(),
        search_patterns: Seq::empty(),
        show_window_ids: true,
    }
}

impl Default for Config {
    fn default() -> (r: Self)
        ensures
            r@ == default_config(),
    {
        let r = Config {
            colors: ColorConfig::default(),
            session_order: None,
            line_numbers: LineNumberConfig::default(),
            search_paths: Vec::new(),
            search_patterns: Vec::new(),
            show_window_ids: true,
        };
        assert(r@.search_paths =~= Seq::<Seq<char>>::empty());
        assert(r@.search_patterns =~= Seq::<SearchPatternConfigView>::empty());
        r
    }
}

/// A colour of the terminal.
#[derive(Debug, Clone, Copy, PartialEq, Eq, Structural)]
pub enum Color {
    Black,
    Red,
    Green,
    Yellow,
    Blue,
    Magenta,
    Cyan,
    Gray,
    DarkGray,
    LightRed,
    LightGreen,
    LightYellow,
    LightBlue,
    LightMagenta,
    LightCyan,
    White,
    /// Red, green and blue.
    Rgb(u8, u8, u8),
    /// A colour of the palette of 256.
    Indexed(u8),
}

/// How text is drawn: its colours and its attributes.
#[derive(Debug, Clone, Copy, PartialEq, Eq, Structural)]
pub struct Style {
    pub fg: Option<Color>,
    pub bg: Option<Color>,
    pub bold: bool,
    pub italic: bool,
    pub underlined: bool,
    pub dim: bool,
    pub reversed: bool,
}

/// The lower-case form of a text, as `str::to_lowercase` gives it.
pub uninterp spec fn lowercase(s: Seq<char>) -> Seq<char>;

/// Whether every character of a text is an ASCII character.
pub open spec fn all_ascii(s: Seq<char>) -> bool {
    forall|i: int| 0 <= i < s.len() ==> (#[trigger] s[i]) <= '\u{7f}'
}

/// An ASCII capital letter as its small letter; any other character as it is.
pub open spec fn ascii_lower(c: char) -> char {
    if 'A' <= c <= 'Z' {
        ((c as int) + 32) as char
    } else {
        c
    }
}

/// A text with each ASCII capital letter as its small letter.
pub open spec fn ascii_lowered(s: Seq<char>) -> Seq<char> {
    Seq::new(s.len(), |i: int| ascii_lower(s[i]))
}

/// Calls `str::to_lowercase`. The result is named by `lowercase`: it
/// depends on the text alone. Of a text of ASCII characters it is the text
/// with each capital letter as its small letter.
#[verifier::external_body]
pub(crate) fn to_lowercase(s: &str) -> (r: String)
    ensures
        r@ == lowercase(s@),
        all_ascii(s@) ==> r@ == ascii_lowered(s@),
{
    s.to_lowercase()
}

/// The value of a digit in base 16, or -1 for any other character.
pub open spec fn hex_digit(c: char) -> int {
    if '0' <= c <= '9' {
        c as int - '0' as int
    } else if 'a' <= c <= 'f' {
        c as int - 'a' as int + 10
    } else if 'A' <= c <= 'F' {
        c as int - 'A' as int + 10
    } else {
        -1
    }
}

/// The value of a decimal digit, or -1 for any other character.
pub open spec fn decimal_digit(c: char) -> int {
    if '0' <= c <= '9' {
        c as int - '0' as int
    } else {
        -1
    }
}

/// The digit values of a numeral in the base; -1 stands for a character
/// that is no digit of the base.
pub open spec fn digit(c: char, base: int) -> int {
    if base == 16 {
        hex_digit(c)
    } else {
        decimal_digit(c)
    }
}

/// Whether every character is a digit of the base.
pub open spec fn all_digits(s: Seq<char>, base: int) -> bool {
    forall|i: int| 0 <= i < s.len() ==> digit(#[trigger] s[i], base) >= 0
}

/// The number that the digits write in the base.
pub open spec fn number(s: Seq<char>, base: int) -> int
    decreases s.len(),
{
    if s.len() == 0 {
        0
    } else {
        number(s.drop_last(), base) * base + digit(s.last(), base)
    }
}

/// The digits of a numeral: the text without a plus sign at its front.
pub open spec fn unsigned_part(s: Seq<char>) -> Seq<char> {
    if s.len() > 0 && s[0] == '+' {
        s.drop_first()
    } else {
        s
    }
}

/// The number that a text writes in the base: an optional plus sign and
/// then at least one digit, nothing else. `None` for any other text.
pub open spec fn parsed(s: Seq<char>, base: int) -> Option<int> {
    let digits = unsigned_part(s);
    if digits.len() > 0 && all_digits(digits, base) {
        Some(number(digits, base))
    } else {
        None
    }
}

/// The colour with the red, green and blue of a number below 2^24.
pub open spec fn rgb(value: int) -> Color {
    Color::Rgb((value / 65536 % 256) as u8, (value / 256 % 256) as u8, (value % 256) as u8)
}

/// The colour that six digits in base 16 write; white where the text is
/// no such numeral.
pub open spec fn hex_color(s: Seq<char>) -> Color {
    match parsed(s, 16) {
        Some(value) => rgb(value),
        None => Color::White,
    }
}

/// The colour of a name.
pub open spec fn named_color(s: Seq<char>) -> Option<Color> {
    if s == "black"@ {
        Some(Color::Black)
    } else if s == "red"@ {
        Some(Color::Red)
    } else if s == "green"@ {
        Some(Color::Green)
    } else if s == "yellow"@ {
        Some(Color::Yellow)
    } else if s == "blue"@ {
        Some(Color::Blue)
    } else if s == "magenta"@ {
        Some(Color::Magenta)
    } else if s == "cyan"@ {
        Some(Color::Cyan)
    } else if s == "gray"@ || s == "grey"@ {
        Some(Color::Gray)
    } else if s == "dark_gray"@ || s == "dark_grey"@ {
        Some(Color::DarkGray)
    } else if s == "light_red"@ {
        Some(Color::LightRed)
    } else if s == "light_green"@ {
        Some(Color::LightGreen)
    } else if s == "light_yellow"@ {
        Some(Color::LightYellow)
    } else if s == "light_blue"@ {
        Some(Color::LightBlue)
    } else if s == "light_magenta"@ {
        Some(Color::LightMagenta)
    } else if s == "light_cyan"@ {
        Some(Color::LightCyan)
    } else if s == "white"@ {
        Some(Color::White)
    } else {
        None
    }
}

/// The colour that a text in lower case stands for: a name; six digits in
/// base 16, bare or behind `#` or `0x`; or a number of the palette. Any
/// other text is white.
pub open spec fn color_of(s: Seq<char>) -> Color {
    match named_color(s) {
        Some(c) => c,
        None => if s.len() == 7 && s[0] == '#' {
            hex_color(s.subrange(1, 7))
        } else if s.len() == 8 && s[0] == '0' && s[1] == 'x' {
            hex_color(s.subrange(2, 8))
        } else if s.len() == 6 {
            hex_color(s)
        } else {
            match parsed(s, 10) {
                Some(value) => if value <= 255 {
                    Color::Indexed(value as u8)
                } else {
                    Color::White
                },
                None => Color::White,
            }
        },
    }
}

/// The value of a character as a digit of the base, or `None`.
fn digit_of(c: char, hex: bool) -> (d: Option<u32>)
    ensures
        match d {
            Some(v) => v == digit(c, if hex { 16int } else { 10int }) && v < 16,
            None => digit(c, if hex { 16int } else { 10int }) < 0,
        },
{
    if '0' <= c && c <= '9' {
        Some(c as u32 - '0' as u32)
    } else if hex && 'a' <= c && c <= 'f' {
        Some(c as u32 - 'a' as u32 + 10)
    } else if hex && 'A' <= c && c <= 'F' {
        Some(c as u32 - 'A' as u32 + 10)
    } else {
        None
    }
}

/// A numeral never writes a negative number, and a longer numeral writes
/// no less than its front part.
proof fn lemma_number_grows(s: Seq<char>, base: int, k: int)
    requires
        base == 10 || base == 16,
        all_digits(s, base),
        0 <= k <= s.len(),
    ensures
        0 <= number(s.subrange(0, k), base) <= number(s, base),
    decreases s.len() - k,
{
    lemma_number_nonneg(s.subrange(0, k), base);
    if k < s.len() {
        let longer = s.subrange(0, k + 1);
        assert(longer.drop_last() =~= s.subrange(0, k));
        assert(longer.last() == s[k]);
        lemma_number_grows(s, base, k + 1);
        lemma_number_nonneg(s.subrange(0, k), base);
        assert(number(longer, base) >= number(s.subrange(0, k), base)) by {
            assert(digit(s[k], base) >= 0);
            let n = number(s.subrange(0, k), base);
            assert(n * base >= n) by (nonlinear_arith)
                requires
                    n >= 0,
                    base >= 1,
            ;
        }
    } else {
        assert(s.subrange(0, k) =~= s);
    }
}

/// A numeral never writes a negative number.
proof fn lemma_number_nonneg(s: Seq<char>, base: int)
    requires
        base == 10 || base == 16,
        all_digits(s, base),
    ensures
        0 <= number(s, base),
    decreases s.len(),
{
    if s.len() > 0 {
        assert(all_digits(s.drop_last(), base)) by {
            assert forall|i: int| 0 <= i < s.drop_last().len() implies digit(
                #[trigger] s.drop_last()[i],
                base,
            ) >= 0 by {
                assert(s.drop_last()[i] == s[i]);
            }
        }
        lemma_number_nonneg(s.drop_last(), base);
        assert(digit(s.last(), base) >= 0);
        let n = number(s.drop_last(), base);
        assert(n * base >= 0) by (nonlinear_arith)
            requires
                n >= 0,
                base >= 1,
        ;
    }
}

/// Reads `v[from..]` as a numeral in base 16 or 10. Numbers above `limit`
/// are not told apart: they come back as `limit + 1`.
fn parse_number(v: &Vec<char>, from: usize, hex: bool, limit: u32) -> (r: Option<u32>)
    requires
        from <= v.len(),
        limit <= 0xff_ffff,
    ensures
        match parsed(v@.subrange(from as int, v.len() as int), if hex { 16int } else { 10int }) {
            Some(value) => 0 <= value && r == Some(
                if value > limit {
                    (limit + 1) as u32
                } else {
                    value as u32
                },
            ),
            None => r is None,
        },
{
    let ghost base: int = if hex { 16int } else { 10int };
    let ghost text = v@.subrange(from as int, v.len() as int);
    let start: usize = if from < v.len() && v[from] == '+' {
        from + 1
    } else {
        from
    };
    let ghost digits = v@.subrange(start as int, v.len() as int);
    assert(digits =~= unsigned_part(text));
    if start == v.len() {
        return None;
    }
    let mut value: u32 = 0;
    let mut i: usize = start;
    assert(digits.subrange(0, 0) =~= Seq::<char>::empty());
    while i < v.len()
        invariant
            start <= i <= v.len(),
            limit <= 0xff_ffff,
            base == (if hex { 16int } else { 10int }),
            digits == v@.subrange(start as int, v.len() as int),
            digits == unsigned_part(text),
            text == v@.subrange(from as int, v.len() as int),
            digits.len() > 0,
            all_digits(digits.subrange(0, i - start), base),
            value <= limit + 1,
            value <= limit ==> value == number(digits.subrange(0, i - start), base),
            value == limit + 1 ==> number(digits.subrange(0, i - start), base) > limit,
        decreases v.len() - i,
    {
        let ghost front = digits.subrange(0, i - start);
        let ghost longer = digits.subrange(0, i - start + 1);
        proof {
            assert(longer.drop_last() =~= front);
            assert(longer.last() == v[i as int]);
        }
        match digit_of(v[i], hex) {
            Some(d) => {
                proof {
                    assert forall|k: int| 0 <= k < longer.len() implies digit(
                        #[trigger] longer[k],
                        base,
                    ) >= 0 by {
                        if k < front.len() {
                            assert(longer[k] == front[k]);
                        }
                    }
                    lemma_number_grows(longer, base, longer.len() - 1);
                }
                if value > limit {
                    value = limit + 1;
                } else {
                    let wide: u64 = (value as u64) * (if hex { 16u64 } else { 10u64 }) + d as u64;
                    if wide > limit as u64 {
                        value = limit + 1;
                    } else {
                        value = wide as u32;
                    }
                }
            },
            None => {
                proof {
                    assert(digits[i - start] == v[i as int]);
                    assert(!all_digits(digits, base));
                }
                return None;
            },
        }
        i += 1;
    }
    assert(digits.subrange(0, v.len() - start) =~= digits);
    proof {
        lemma_number_nonneg(digits, base);
    }
    Some(value)
}

/// 16 to the power of `k`.
pub open spec fn pow16(k: nat) -> int
    decreases k,
{
    if k == 0 {
        1
    } else {
        16 * pow16((k - 1) as nat)
    }
}

/// A numeral of `k` digits in base 16 writes a number below 16 to the `k`.
proof fn lemma_hex_bound(s: Seq<char>)
    requires
        all_digits(s, 16),
    ensures
        0 <= number(s, 16) < pow16(s.len()),
    decreases s.len(),
{
    if s.len() > 0 {
        assert(all_digits(s.drop_last(), 16)) by {
            assert forall|i: int| 0 <= i < s.drop_last().len() implies digit(
                #[trigger] s.drop_last()[i],
                16,
            ) >= 0 by {
                assert(s.drop_last()[i] == s[i]);
            }
        }
        lemma_hex_bound(s.drop_last());
        assert(0 <= digit(s.last(), 16) < 16);
    }
}

/// The colour that the six characters `v[from..]` write as digits in base 16.
fn parse_hex_color(v: &Vec<char>, from: usize) -> (c: Color)
    requires
        from + 6 == v.len(),
    ensures
        c == hex_color(v@.subrange(from as int, v.len() as int)),
{
    match parse_number(v, from, true, 0xff_ffff) {
        Some(value) => {
            proof {
                let text = v@.subrange(from as int, v.len() as int);
                let digits = unsigned_part(text);
                lemma_hex_bound(digits);
                reveal_with_fuel(pow16, 7);
                assert(pow16(digits.len()) <= 16777216);
            }
            Color::Rgb(
                (value / 65536 % 256) as u8,
                (value / 256 % 256) as u8,
                (value % 256) as u8,
            )
        },
        None => Color::White,
    }
}

/// The colour of a name.
fn parse_named_color(s: &String) -> (c: Option<Color>)
    ensures
        c == named_color(s@),
{
    if *s == String::from_str("black") {
        Some(Color::Black)
    } else if *s == String::from_str("red") {
        Some(Color::Red)
    } else if *s == String::from_str("green") {
        Some(Color::Green)
    } else if *s == String::from_str("yellow") {
        Some(Color::Yellow)
    } else if *s == String::from_str("blue") {
        Some(Color::Blue)
    } else if *s == String::from_str("magenta") {
        Some(Color::Magenta)
    } else if *s == String::from_str("cyan") {
        Some(Color::Cyan)
    } else if *s == String::from_str("gray") || *s == String::from_str("grey") {
        Some(Color::Gray)
    } else if *s == String::from_str("dark_gray") || *s == String::from_str("dark_grey") {
        Some(Color::DarkGray)
    } else if *s == String::from_str("light_red") {
        Some(Color::LightRed)
    } else if *s == String::from_str("light_green") {
        Some(Color::LightGreen)
    } else if *s == String::from_str("light_yellow") {
        Some(Color::LightYellow)
    } else if *s == String::from_str("light_blue") {
        Some(Color::LightBlue)
    } else if *s == String::from_str("light_magenta") {
        Some(Color::LightMagenta)
    } else if *s == String::from_str("light_cyan") {
        Some(Color::LightCyan)
    } else if *s == String::from_str("white") {
        Some(Color::White)
    } else {
        None
    }
}

/// The colour that a text in lower case stands for.
pub fn color_from_lowercase(s: &String) -> (c: Color)
    ensures
        c == color_of(s@),
{
    match parse_named_color(s) {
        Some(c) => c,
        None => {
            let v: Vec<char> = chars_of(s.as_str());
            if v.len() == 7 && v[0] == '#' {
                parse_hex_color(&v, 1)
            } else if v.len() == 8 && v[0] == '0' && v[1] == 'x' {
                parse_hex_color(&v, 2)
            } else if v.len() == 6 {
                assert(v@.subrange(0, 6) =~= v@);
                parse_hex_color(&v, 0)
            } else {
                assert(v@.subrange(0, v.len() as int) =~= v@);
                match parse_number(&v, 0, false, 255) {
                    Some(value) => if value <= 255 {
                        Color::Indexed(value as u8)
                    } else {
                        Color::White
                    },
                    None => Color::White,
                }
            }
        },
    }
}

/// The colour that a text stands for, whatever its case: a name; six
/// digits in base 16, bare or behind `#` or `0x`; or a number of the
/// palette. Any other text is white.
pub fn parse_color(color_str: &str) -> (c: Color)
    ensures
        c == color_of(lowercase(color_str@)),
        all_ascii(color_str@) ==> c == color_of(ascii_lowered(color_str@)),
{
    let lower: String = to_lowercase(color_str);
    color_from_lowercase(&lower)
}

/// The colour of a configured text, where one is configured.
pub open spec fn color_choice(s: Option<Seq<char>>) -> Option<Color> {
    match s {
        Some(t) => Some(color_of(lowercase(t))),
        None => None,
    }
}

/// Whether an attribute is switched on.
pub open spec fn is_on(flag: Option<bool>) -> bool {
    flag == Some(true)
}

/// The style to draw with: the configured colours, and each attribute
/// that is switched on.
pub open spec fn style_of(config: StyleConfigView) -> Style {
    Style {
        fg: color_choice(config.fg),
        bg: color_choice(config.bg),
        bold: is_on(config.bold),
        italic: is_on(config.italic),
        underlined: is_on(config.underline),
        dim: is_on(config.dim),
        reversed: is_on(config.reversed),
    }
}

impl StyleConfig {
    /// The style to draw with: the configured colours, and each attribute
    /// that is switched on.
    pub fn to_ratatui_style(&self) -> (style: Style)
        ensures
            style == style_of(self@),
    {
        Style {
            fg: match &self.fg {
                Some(s) => Some(parse_color(s.as_str())),
                None => None,
            },
            bg: match &self.bg {
                Some(s) => Some(parse_color(s.as_str())),
                None => None,
            },
            bold: flag_on(self.bold),
            italic: flag_on(self.italic),
            underlined: flag_on(self.underline),
            dim: flag_on(self.dim),
            reversed: flag_on(self.reversed),
        }
    }
}

/// Whether an attribute is switched on.
fn flag_on(flag: Option<bool>) -> (b: bool)
    ensures
        b == is_on(flag),
{
    match flag {
        Some(on) => on,
        None => false,
    }
}

/// The shape of a value of a configuration file: its kind, and for a
/// table the shapes of its entries.
#[derive(Debug)]
pub enum ValueShape {
    Text,
    Integer,
    Real,
    Boolean,
    Datetime,
    Array,
    Table(Vec<TableEntry>),
}

/// An entry of a table: its key and the shape of its value.
#[derive(Debug)]
pub struct TableEntry {
    pub key: String,
    pub value: ValueShape,
}

/// Whether two shapes are of the same kind.
pub open spec fn same_kind(a: ValueShape, b: ValueShape) -> bool {
    match (a, b) {
        (ValueShape::Text, ValueShape::Text) => true,
        (ValueShape::Integer, ValueShape::Integer) => true,
        (ValueShape::Real, ValueShape::Real) => true,
        (ValueShape::Boolean, ValueShape::Boolean) => true,
        (ValueShape::Datetime, ValueShape::Datetime) => true,
        (ValueShape::Array, ValueShape::Array) => true,
        (ValueShape::Table(_), ValueShape::Table(_)) => true,
        _ => false,
    }
}

/// The index of the first entry at or after `from` with the key, or the
/// number of entries.
pub open spec fn entry_at(entries: Seq<TableEntry>, key: Seq<char>, from: int) -> int
    decreases entries.len() - from,
{
    if from < 0 || from >= entries.len() {
        entries.len() as int
    } else if entries[from].key@ == key {
        from
    } else {
        entry_at(entries, key, from + 1)
    }
}

/// Whether a configuration has every field of the default one: a table
/// has every key of the default table, with a value that has every field
/// of the default value; any other value is of the default value's kind.
pub open spec fn covers(config: ValueShape, default: ValueShape) -> bool
    decreases default,
{
    match (config, default) {
        (ValueShape::Table(have), ValueShape::Table(want)) => forall|i: int|
            0 <= i < want@.len() ==> {
                let k = entry_at(have@, (#[trigger] want@[i]).key@, 0);
                0 <= k < have@.len() && covers(have@[k].value, want@[i].value)
            },
        _ => same_kind(config, default),
    }
}

/// The first entry with the key.
fn find_entry(entries: &Vec<TableEntry>, key: &String) -> (k: usize)
    ensures
        k == entry_at(entries@, key@, 0),
        k <= entries.len(),
{
    let mut k: usize = 0;
    while k < entries.len()
        invariant
            k <= entries.len(),
            entry_at(entries@, key@, 0) == entry_at(entries@, key@, k as int),
        decreases entries.len() - k,
    {
        if entries[k].key == *key {
            return k;
        }
        k += 1;
    }
    k
}

/// Whether a configuration has every field of the default one.
pub fn has_all_fields_recursive(config: &ValueShape, default: &ValueShape) -> (b: bool)
    ensures
        b == covers(*config, *default),
    decreases default,
{
    match (config, default) {
        (ValueShape::Table(have), ValueShape::Table(want)) => {
            let mut i: usize = 0;
            while i < want.len()
                invariant
                    i <= want.len(),
                    *config == ValueShape::Table(*have),
                    *default == ValueShape::Table(*want),
                    forall|j: int|
                        0 <= j < i ==> {
                            let k = entry_at(have@, (#[trigger] want@[j]).key@, 0);
                            0 <= k < have@.len() && covers(have@[k].value, want@[j].value)
                        },
                decreases want.len() - i,
            {
                let k: usize = find_entry(have, &want[i].key);
                if k >= have.len() {
                    return false;
                }
                proof {
                    assert(default->Table_0 == *want);
                    assert(decreases_to!(*default => default->Table_0@[i as int].value));
                }
                if !has_all_fields_recursive(&have[k].value, &want[i].value) {
                    return false;
                }
                i += 1;
            }
            true
        },
        (ValueShape::Text, ValueShape::Text) => true,
        (ValueShape::Integer, ValueShape::Integer) => true,
        (ValueShape::Real, ValueShape::Real) => true,
        (ValueShape::Boolean, ValueShape::Boolean) => true,
        (ValueShape::Datetime, ValueShape::Datetime) => true,
        (ValueShape::Array, ValueShape::Array) => true,
        _ => false,
    }
}

/// Whether a configuration that was read has every field of the default
/// one. A configuration whose shape could not be had has not.
pub fn has_all_fields(config: Option<&ValueShape>, default: Option<&ValueShape>) -> (b: bool)
    ensures
        b == match (config, default) {
            (Some(c), Some(d)) => covers(*c, *d),
            _ => false,
        },
{
    match (config, default) {
        (Some(c), Some(d)) => has_all_fields_recursive(c, d),
        _ => false,
    }
}

/// Whether a configuration that was read is written back: it is where
/// its text differs from the default text and it lacks a field of the
/// default configuration.
pub fn needs_rewrite(text: &str, default_text: &str, has_all: bool) -> (b: bool)
    ensures
        b == (text@ != default_text@ && !has_all),
{
    let same: bool = text.to_owned() == default_text.to_owned();
    !same && !has_all
}

} // verus!
