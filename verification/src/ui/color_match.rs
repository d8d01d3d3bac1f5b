//! From the text of a log line to the styled text that the screen shows.

use vstd::prelude::*;
use vstd::string::*;

use crate::text::same_text;

verus! {

// cansi's colours, intensities and slices are plain data with public fields
// only: Verus reads their definitions, and nothing is assumed of them.
#[verifier::external_type_specification]
pub struct ExCansiColor(cansi::Color);

#[verifier::external_type_specification]
pub struct ExCansiIntensity(cansi::Intensity);

#[verifier::external_type_specification]
pub struct ExCategorisedSlice<'text>(cansi::v3::CategorisedSlice<'text>);

/// The colours of the screen that log lines are shown in.
#[derive(Debug, Clone, Copy, PartialEq, Eq, Hash, Structural)]
pub enum TuiColor {
    Black,
    Red,
    Green,
    Yellow,
    Blue,
    Magenta,
    Cyan,
    White,
    LightRed,
    LightGreen,
    LightYellow,
    LightBlue,
    LightMagenta,
    LightCyan,
}

/// The ways in which text can be set off, each on or off.
#[derive(Debug, Clone, Copy, PartialEq, Eq, Hash, Structural)]
pub struct Modifier {
    pub bold: bool,
    pub underlined: bool,
    pub slow_blink: bool,
    pub reversed: bool,
    pub hidden: bool,
    pub crossed_out: bool,
}

/// How a piece of text is shown. A colour that is not set is left to the
/// screen.
#[derive(Debug, Clone, Copy, PartialEq, Eq, Hash, Structural)]
pub struct Style {
    pub fg: Option<TuiColor>,
    pub bg: Option<TuiColor>,
    pub add_modifier: Modifier,
}

/// Where a line stands between the margins.
#[derive(Debug, Clone, Copy, PartialEq, Eq, Hash, Structural)]
pub enum Alignment {
    Left,
    Center,
    Right,
}

/// A piece of text in one style.
#[derive(Debug, PartialEq, Eq)]
pub struct Span {
    pub content: String,
    pub style: Style,
}

/// A line of the screen.
#[derive(Debug, PartialEq, Eq)]
pub struct Line {
    pub spans: Vec<Span>,
    pub style: Style,
    pub alignment: Option<Alignment>,
}

/// A `Span` with its text as a sequence of characters.
pub struct SpanView {
    pub content: Seq<char>,
    pub style: Style,
}

/// A `Line` with its spans as views.
pub struct LineView {
    pub spans: Seq<SpanView>,
    pub style: Style,
    pub alignment: Option<Alignment>,
}

impl View for Span {
    type V = SpanView;

    open spec fn view(&self) -> SpanView {
        SpanView { content: self.content@, style: self.style }
    }
}

/// The spans as their views, in the same order.
pub open spec fn spans_of(spans: Seq<Span>) -> Seq<SpanView> {
    spans.map_values(|span: Span| span@)
}

impl View for Line {
    type V = LineView;

    open spec fn view(&self) -> LineView {
        LineView { spans: spans_of(self.spans@), style: self.style, alignment: self.alignment }
    }
}

/// The lines as their views, in the same order.
pub open spec fn lines_of(lines: Seq<Line>) -> Seq<LineView> {
    lines.map_values(|line: Line| line@)
}

impl Modifier {
    /// Nothing is set off.
    pub open spec fn none() -> Modifier {
        Modifier {
            bold: false,
            underlined: false,
            slow_blink: false,
            reversed: false,
            hidden: false,
            crossed_out: false,
        }
    }
}

impl Style {
    /// The style that leaves everything to the screen.
    pub open spec fn plain() -> Style {
        Style { fg: None, bg: None, add_modifier: Modifier::none() }
    }

    /// The plain style with a foreground colour.
    pub open spec fn coloured(color: TuiColor) -> Style {
        Style { fg: Some(color), bg: None, add_modifier: Modifier::none() }
    }

    /// The style that leaves everything to the screen.
    pub fn new() -> (style: Style)
        ensures
            style == Style::plain(),
    {
        Style {
            fg: None,
            bg: None,
            add_modifier: Modifier {
                bold: false,
                underlined: false,
                slow_blink: false,
                reversed: false,
                hidden: false,
                crossed_out: false,
            },
        }
    }

    /// The same style with foreground `color`.
    pub fn fg(self, color: TuiColor) -> (style: Style)
        ensures
            style == (Style { fg: Some(color), ..self }),
    {
        Style { fg: Some(color), bg: self.bg, add_modifier: self.add_modifier }
    }

    /// The same style with background `color`.
    pub fn bg(self, color: TuiColor) -> (style: Style)
        ensures
            style == (Style { bg: Some(color), ..self }),
    {
        Style { fg: self.fg, bg: Some(color), add_modifier: self.add_modifier }
    }
}

impl Default for Style {
    fn default() -> (style: Style)
        ensures
            style == Style::plain(),
    {
        Style::new()
    }
}

impl SpanView {
    /// Text in the plain style.
    pub open spec fn raw(content: Seq<char>) -> SpanView {
        SpanView { content, style: Style::plain() }
    }
}

impl LineView {
    /// A line of the given spans, with nothing set for the line as a whole.
    pub open spec fn of(spans: Seq<SpanView>) -> LineView {
        LineView { spans, style: Style::plain(), alignment: None }
    }
}

impl Span {
    /// Text in the plain style.
    pub fn raw(content: String) -> (span: Span)
        ensures
            span@ == SpanView::raw(content@),
    {
        Span { content, style: Style::new() }
    }

    /// Text in a style.
    pub fn styled(content: String, style: Style) -> (span: Span)
        ensures
            span@ == (SpanView { content: content@, style }),
    {
        Span { content, style }
    }
}

impl Line {
    /// A line of the given spans, with nothing set for the line as a whole.
    pub fn from_spans(spans: Vec<Span>) -> (line: Line)
        ensures
            line@ == LineView::of(spans_of(spans@)),
    {
        Line { spans, style: Style::new(), alignment: None }
    }
}

/// What the logic reads of one slice that cansi cuts a text into: the text of
/// the slice, and what the escape codes before it have set.
pub struct AnsiSlice {
    pub text: Seq<char>,
    pub fg: Option<cansi::Color>,
    pub bg: Option<cansi::Color>,
    pub intensity: Option<cansi::Intensity>,
    pub underline: Option<bool>,
    pub blink: Option<bool>,
    pub reversed: Option<bool>,
    pub hidden: Option<bool>,
    pub strikethrough: Option<bool>,
}

/// What the logic reads of a slice.
pub open spec fn slice_of(slice: cansi::v3::CategorisedSlice<'_>) -> AnsiSlice {
    AnsiSlice {
        text: slice.text@,
        fg: slice.fg,
        bg: slice.bg,
        intensity: slice.intensity,
        underline: slice.underline,
        blink: slice.blink,
        reversed: slice.reversed,
        hidden: slice.hidden,
        strikethrough: slice.strikethrough,
    }
}

/// What the logic reads of each slice, in the same order.
pub open spec fn slices_of(slices: Seq<cansi::v3::CategorisedSlice<'_>>) -> Seq<AnsiSlice> {
    slices.map_values(|slice: cansi::v3::CategorisedSlice<'_>| slice_of(slice))
}

/// The slices that cansi cuts a text into, in order: the text between the
/// escape codes, each piece with what the codes before it have set.
pub uninterp spec fn categorised(text: Seq<char>) -> Seq<AnsiSlice>;

/// `cansi::v3::categorise_text`: parses the text and returns each formatted
/// slice in order, without the escape codes. The result depends on the text
/// alone.
#[verifier::external_body]
fn categorise_text<'text>(text: &'text str) -> (slices: Vec<cansi::v3::CategorisedSlice<'text>>)
    ensures
        slices_of(slices@) == categorised(text@),
{
    cansi::v3::categorise_text(text)
}

/// The screen colour for a colour of the escape codes.
pub open spec fn tui_color(color: cansi::Color) -> TuiColor {
    match color {
        cansi::Color::Black => TuiColor::Black,
        cansi::Color::BrightBlack => TuiColor::Black,
        cansi::Color::Red => TuiColor::Red,
        cansi::Color::Green => TuiColor::Green,
        cansi::Color::Yellow => TuiColor::Yellow,
        cansi::Color::Blue => TuiColor::Blue,
        cansi::Color::Magenta => TuiColor::Magenta,
        cansi::Color::Cyan => TuiColor::Cyan,
        cansi::Color::White => TuiColor::White,
        cansi::Color::BrightWhite => TuiColor::White,
        cansi::Color::BrightRed => TuiColor::LightRed,
        cansi::Color::BrightGreen => TuiColor::LightGreen,
        cansi::Color::BrightYellow => TuiColor::LightYellow,
        cansi::Color::BrightBlue => TuiColor::LightBlue,
        cansi::Color::BrightMagenta => TuiColor::LightMagenta,
        cansi::Color::BrightCyan => TuiColor::LightCyan,
    }
}

/// Change from ansi to tui colors.
pub fn color_ansi_to_tui(color: cansi::Color) -> (tui: TuiColor)
    ensures
        tui == tui_color(color),
{
    match color {
        cansi::Color::Black | cansi::Color::BrightBlack => TuiColor::Black,
        cansi::Color::Red => TuiColor::Red,
        cansi::Color::Green => TuiColor::Green,
        cansi::Color::Yellow => TuiColor::Yellow,
        cansi::Color::Blue => TuiColor::Blue,
        cansi::Color::Magenta => TuiColor::Magenta,
        cansi::Color::Cyan => TuiColor::Cyan,
        cansi::Color::White | cansi::Color::BrightWhite => TuiColor::White,
        cansi::Color::BrightRed => TuiColor::LightRed,
        cansi::Color::BrightGreen => TuiColor::LightGreen,
        cansi::Color::BrightYellow => TuiColor::LightYellow,
        cansi::Color::BrightBlue => TuiColor::LightBlue,
        cansi::Color::BrightMagenta => TuiColor::LightMagenta,
        cansi::Color::BrightCyan => TuiColor::LightCyan,
    }
}

/// The style of a slice: its colours, white on black where none is set, and
/// each way of setting text off that the escape codes have named.
pub open spec fn slice_style(slice: AnsiSlice) -> Style {
    Style {
        fg: Some(
            match slice.fg {
                Some(color) => tui_color(color),
                None => TuiColor::White,
            },
        ),
        bg: Some(
            match slice.bg {
                Some(color) => tui_color(color),
                None => TuiColor::Black,
            },
        ),
        add_modifier: Modifier {
            bold: slice.intensity == Some(cansi::Intensity::Bold),
            underlined: slice.underline is Some,
            slow_blink: slice.blink is Some,
            reversed: slice.reversed is Some,
            hidden: slice.hidden is Some,
            crossed_out: slice.strikethrough is Some,
        },
    }
}

/// The span that shows a slice.
pub open spec fn slice_span(slice: AnsiSlice) -> SpanView {
    SpanView { content: slice.text, style: slice_style(slice) }
}

/// The text of all slices, one after the other.
pub open spec fn plain_text(slices: Seq<AnsiSlice>) -> Seq<char>
    decreases slices.len(),
{
    if slices.len() == 0 {
        Seq::<char>::empty()
    } else {
        plain_text(slices.drop_last()) + slices.last().text
    }
}

/// The one line that shows `content` as it is.
pub open spec fn raw_lines(content: Seq<char>) -> Seq<LineView> {
    Seq::<LineView>::empty().push(
        LineView::of(Seq::<SpanView>::empty().push(SpanView::raw(content))),
    )
}

/// Whether the slice is set in bold.
fn is_bold(intensity: Option<cansi::Intensity>) -> (bold: bool)
    ensures
        bold == (intensity == Some(cansi::Intensity::Bold)),
{
    match intensity {
        Some(cansi::Intensity::Bold) => true,
        _ => false,
    }
}

/// Attempt to colorize the given string to the screen's standards: one line
/// with a span for each slice of the text, in the style that the escape codes
/// ask for.
pub fn colorize_logs(input: &str) -> (lines: Vec<Line>)
    ensures
        lines_of(lines@) == Seq::<LineView>::empty().push(
            LineView::of(categorised(input@).map_values(|slice: AnsiSlice| slice_span(slice))),
        ),
{
    let slices = categorise_text(input);
    let ghost goal = categorised(input@).map_values(|slice: AnsiSlice| slice_span(slice));
    let mut spans: Vec<Span> = Vec::new();
    let mut k: usize = 0;
    while k < slices.len()
        invariant
            k <= slices@.len(),
            slices_of(slices@) == categorised(input@),
            goal == categorised(input@).map_values(|slice: AnsiSlice| slice_span(slice)),
            spans@.len() == k,
            forall|j: int| 0 <= j < k ==> (#[trigger] spans@[j])@ == goal[j],
        decreases slices@.len() - k,
    {
        let i = &slices[k];
        assert(slices_of(slices@)[k as int] == slice_of(*i));
        let bg = match i.bg {
            Some(color) => color_ansi_to_tui(color),
            None => color_ansi_to_tui(cansi::Color::Black),
        };
        let fg = match i.fg {
            Some(color) => color_ansi_to_tui(color),
            None => color_ansi_to_tui(cansi::Color::White),
        };
        let mut style = Style::new().bg(bg).fg(fg);
        if i.blink.is_some() {
            style.add_modifier.slow_blink = true;
        }
        if i.underline.is_some() {
            style.add_modifier.underlined = true;
        }
        if i.reversed.is_some() {
            style.add_modifier.reversed = true;
        }
        if is_bold(i.intensity) {
            style.add_modifier.bold = true;
        }
        if i.hidden.is_some() {
            style.add_modifier.hidden = true;
        }
        if i.strikethrough.is_some() {
            style.add_modifier.crossed_out = true;
        }
        spans.push(Span::styled(i.text.to_owned(), style));
        k += 1;
    }
    assert(spans_of(spans@) =~= goal);
    let mut lines: Vec<Line> = Vec::new();
    lines.push(Line::from_spans(spans));
    assert(lines_of(lines@) =~= Seq::<LineView>::empty().push(LineView::of(goal)));
    lines
}

/// Remove all ansi formatting from a given string and create the one line
/// that shows what is left.
pub fn remove_ansi(input: &str) -> (lines: Vec<Line>)
    ensures
        lines_of(lines@) == raw_lines(plain_text(categorised(input@))),
{
    let slices = categorise_text(input);
    let mut text = String::new();
    let mut k: usize = 0;
    while k < slices.len()
        invariant
            k <= slices@.len(),
            text@ == plain_text(slices_of(slices@).take(k as int)),
        decreases slices@.len() - k,
    {
        proof {
            let done = slices_of(slices@).take(k as int + 1);
            assert(done.drop_last() =~= slices_of(slices@).take(k as int));
            assert(done.last().text == slices@[k as int].text@);
        }
        text.append(slices[k].text);
        k += 1;
    }
    assert(slices_of(slices@).take(k as int) =~= slices_of(slices@));
    raw(text.as_str())
}

/// Create the one line that exactly matches the given string.
pub fn raw(input: &str) -> (lines: Vec<Line>)
    ensures
        lines_of(lines@) == raw_lines(input@),
{
    let mut spans: Vec<Span> = Vec::new();
    spans.push(Span::raw(input.to_owned()));
    assert(spans_of(spans@) =~= Seq::<SpanView>::empty().push(SpanView::raw(input@)));
    let mut lines: Vec<Line> = Vec::new();
    lines.push(Line::from_spans(spans));
    assert(lines_of(lines@) =~= raw_lines(input@));
    lines
}

/// A log line that was written as a JSON object, as far as it is shown: the
/// message, the level it was logged at, and the time of day in the form in
/// which it is shown.
#[derive(Debug, Clone, PartialEq, Eq)]
pub struct JsonLogData {
    pub message: String,
    pub level: String,
    pub time: String,
}

/// Whether the first opening brace of `text` stands at `at`.
pub open spec fn first_brace(text: Seq<char>, at: int) -> bool {
    &&& 0 <= at < text.len()
    &&& text[at] == '{'
    &&& forall|j: int| 0 <= j < at ==> text[j] != '{'
}

/// The text from its first opening brace on; all of it where it has none.
pub open spec fn payload(text: Seq<char>) -> Seq<char> {
    if exists|at: int| first_brace(text, at) {
        text.subrange(choose|at: int| first_brace(text, at), text.len() as int)
    } else {
        text
    }
}

/// The colour in which a message of the given level is shown.
pub open spec fn level_color(level: Seq<char>) -> TuiColor {
    if level == "WARNING"@ {
        TuiColor::Yellow
    } else if level == "ERROR"@ {
        TuiColor::Red
    } else if level == "INFO"@ {
        TuiColor::Green
    } else {
        TuiColor::White
    }
}

/// The spans that show a log line: of one that was read as a JSON object, the
/// time and two blanks in white and then the message in the colour of its
/// level; of any other, the text from its first opening brace on, as it is.
pub open spec fn json_spans(text: Seq<char>, parsed: Option<JsonLogData>) -> Seq<SpanView> {
    match parsed {
        Some(data) => Seq::<SpanView>::empty().push(
            SpanView { content: data.time@, style: Style::coloured(TuiColor::White) },
        ).push(SpanView { content: "  "@, style: Style::coloured(TuiColor::White) }).push(
            SpanView { content: data.message@, style: Style::coloured(level_color(data.level@)) },
        ),
        None => Seq::<SpanView>::empty().push(SpanView::raw(payload(text))),
    }
}

/// The part of a log line that may be a JSON object: the text from its first
/// opening brace on.
pub fn json_payload(log_json: &str) -> (rest: &str)
    ensures
        rest@ == payload(log_json@),
{
    let n = log_json.unicode_len();
    let mut at: usize = 0;
    for c in it: log_json.chars()
        invariant
            it.seq() == log_json@,
            at == it.index(),
            n == log_json@.len(),
            forall|j: int| 0 <= j < at ==> log_json@[j] != '{',
    {
        if c == '{' {
            proof {
                assert(first_brace(log_json@, at as int));
                let found = choose|found: int| first_brace(log_json@, found);
                assert(found == at) by {
                    if found < at {
                        assert(log_json@[found] != '{');
                    } else if at < found {
                        assert(log_json@[at as int] != '{');
                    }
                }
            }
            return log_json.substring_char(at, n);
        }
        at += 1;
    }
    assert forall|found: int| !first_brace(log_json@, found) by {
        if 0 <= found < log_json@.len() {
            assert(log_json@[found] != '{');
        }
    }
    log_json
}

/// The colour in which a message of the given level is shown.
pub fn level_color_of(level: &str) -> (color: TuiColor)
    ensures
        color == level_color(level@),
{
    if same_text(level, "WARNING") {
        color_ansi_to_tui(cansi::Color::Yellow)
    } else if same_text(level, "ERROR") {
        color_ansi_to_tui(cansi::Color::Red)
    } else if same_text(level, "INFO") {
        color_ansi_to_tui(cansi::Color::Green)
    } else {
        color_ansi_to_tui(cansi::Color::White)
    }
}

/// The spans that show a log line, given what reading the line as a JSON
/// object gave: `parsed` holds the object's message and level and the time of
/// day of its timestamp, or nothing where the line is no such object.
pub fn json_formatter(log_json: &str, parsed: Option<JsonLogData>) -> (spans: Vec<Span>)
    ensures
        spans_of(spans@) == json_spans(log_json@, parsed),
{
    let mut spans: Vec<Span> = Vec::new();
    match parsed {
        Some(t) => {
            let style = Style::new().fg(level_color_of(t.level.as_str()));
            let white = Style::new().fg(color_ansi_to_tui(cansi::Color::White));
            spans.push(Span::styled(t.time, white));
            spans.push(Span::styled("  ".to_owned(), white));
            spans.push(Span::styled(t.message, style));
            assert(spans_of(spans@) =~= json_spans(log_json@, parsed));
        },
        None => {
            spans.push(Span::raw(json_payload(log_json).to_owned()));
            assert(spans_of(spans@) =~= json_spans(log_json@, parsed));
        },
    }
    spans
}

/// The one line that shows a log line that may be a JSON object.
pub fn json_log(input: &str, parsed: Option<JsonLogData>) -> (lines: Vec<Line>)
    ensures
        lines_of(lines@) == Seq::<LineView>::empty().push(
            LineView::of(json_spans(input@, parsed)),
        ),
{
    let mut lines: Vec<Line> = Vec::new();
    lines.push(Line::from_spans(json_formatter(input, parsed)));
    assert(lines_of(lines@) =~= Seq::<LineView>::empty().push(
        LineView::of(json_spans(input@, parsed)),
    ));
    lines
}

} // verus!
