//! Terminal styling: a model of ANSI styles, colored messages, and
//! width-aware styled lines.

use vstd::prelude::*;
use crate::text::{push_char, push_str};

verus! {

// ============================================================================
// Message emojis
// ============================================================================

/// Progress emoji.
pub const PROGRESS_EMOJI: char = '🔄';
/// Success emoji.
pub const SUCCESS_EMOJI: char = '✅';
/// Error emoji.
pub const ERROR_EMOJI: char = '❌';
/// Warning emoji.
pub const WARNING_EMOJI: char = '🟡';
/// Hint emoji.
pub const HINT_EMOJI: char = '💡';
/// Info emoji.
pub const INFO_EMOJI: char = '⚪';

// ============================================================================
// Style model
// ============================================================================

/// The sixteen basic ANSI colors.
#[derive(Clone, Copy, Debug, PartialEq, Eq, Structural)]
pub enum AnsiColor {
    Black,
    Red,
    Green,
    Yellow,
    Blue,
    Magenta,
    Cyan,
    White,
    BrightBlack,
    BrightRed,
    BrightGreen,
    BrightYellow,
    BrightBlue,
    BrightMagenta,
    BrightCyan,
    BrightWhite,
}

/// The palette index (0..16) of a color.
pub open spec fn color_index(c: AnsiColor) -> nat {
    match c {
        AnsiColor::Black => 0,
        AnsiColor::Red => 1,
        AnsiColor::Green => 2,
        AnsiColor::Yellow => 3,
        AnsiColor::Blue => 4,
        AnsiColor::Magenta => 5,
        AnsiColor::Cyan => 6,
        AnsiColor::White => 7,
        AnsiColor::BrightBlack => 8,
        AnsiColor::BrightRed => 9,
        AnsiColor::BrightGreen => 10,
        AnsiColor::BrightYellow => 11,
        AnsiColor::BrightBlue => 12,
        AnsiColor::BrightMagenta => 13,
        AnsiColor::BrightCyan => 14,
        AnsiColor::BrightWhite => 15,
    }
}

impl AnsiColor {
    /// The palette index of this color.
    pub fn index(&self) -> (n: u8)
        ensures
            n == color_index(*self),
            n < 16,
    {
        match self {
            AnsiColor::Black => 0,
            AnsiColor::Red => 1,
            AnsiColor::Green => 2,
            AnsiColor::Yellow => 3,
            AnsiColor::Blue => 4,
            AnsiColor::Magenta => 5,
            AnsiColor::Cyan => 6,
            AnsiColor::White => 7,
            AnsiColor::BrightBlack => 8,
            AnsiColor::BrightRed => 9,
            AnsiColor::BrightGreen => 10,
            AnsiColor::BrightYellow => 11,
            AnsiColor::BrightBlue => 12,
            AnsiColor::BrightMagenta => 13,
            AnsiColor::BrightCyan => 14,
            AnsiColor::BrightWhite => 15,
        }
    }
}

/// A terminal text style: optional foreground and background colors plus
/// the bold and dimmed effects.
#[derive(Clone, Copy, Debug, PartialEq, Eq, Structural)]
pub struct TextStyle {
    pub fg: Option<AnsiColor>,
    pub bg: Option<AnsiColor>,
    pub bold: bool,
    pub dimmed: bool,
}

/// A style that sets nothing.
pub open spec fn is_plain(s: TextStyle) -> bool {
    s.fg is None && s.bg is None && !s.bold && !s.dimmed
}

/// The decimal digit character for `n < 10`.
pub open spec fn digit(n: nat) -> char {
    if n == 0 { '0' } else if n == 1 { '1' } else if n == 2 { '2' } else if n == 3 { '3' }
    else if n == 4 { '4' } else if n == 5 { '5' } else if n == 6 { '6' } else if n == 7 { '7' }
    else if n == 8 { '8' } else { '9' }
}

/// An SGR escape sequence `ESC [ code m`.
pub open spec fn sgr(code: Seq<char>) -> Seq<char> {
    seq!['\x1b', '['] + code + seq!['m']
}

/// The SGR code of a foreground palette index (`30`-`37`, `90`-`97`).
pub open spec fn fg_code(n: nat) -> Seq<char> {
    if n < 8 { sgr(seq!['3', digit(n)]) } else { sgr(seq!['9', digit((n - 8) as nat)]) }
}

/// The SGR code of a background palette index (`40`-`47`, `100`-`107`).
pub open spec fn bg_code(n: nat) -> Seq<char> {
    if n < 8 { sgr(seq!['4', digit(n)]) } else { sgr(seq!['1', '0', digit((n - 8) as nat)]) }
}

/// The codes of the effects: bold (`1`) then dimmed (`2`).
pub open spec fn effect_codes(bold: bool, dimmed: bool) -> Seq<char> {
    (if bold { sgr(seq!['1']) } else { Seq::empty() }) + (if dimmed { sgr(seq!['2']) } else { Seq::empty() })
}

/// The codes of an optional foreground palette index.
pub open spec fn opt_fg_code(n: Option<u8>) -> Seq<char> {
    match n { Some(i) => fg_code(i as nat), None => Seq::empty() }
}

/// The codes of an optional background palette index.
pub open spec fn opt_bg_code(n: Option<u8>) -> Seq<char> {
    match n { Some(i) => bg_code(i as nat), None => Seq::empty() }
}

/// The palette index of an optional color.
pub open spec fn opt_index(c: Option<AnsiColor>) -> Option<u8> {
    match c { Some(c) => Some(color_index(c) as u8), None => None }
}

/// The escape codes that switch a terminal into a style.
pub open spec fn style_prefix(s: TextStyle) -> Seq<char> {
    effect_codes(s.bold, s.dimmed) + opt_fg_code(opt_index(s.fg)) + opt_bg_code(opt_index(s.bg))
}

/// The full reset code `ESC [ 0 m`.
pub open spec fn reset_code() -> Seq<char> {
    sgr(seq!['0'])
}

/// The code that ends a style: the reset code, elided for a plain style.
pub open spec fn style_suffix(s: TextStyle) -> Seq<char> {
    if is_plain(s) { Seq::empty() } else { reset_code() }
}

/// `anstyle::Style::render`, on the style with the given effects and palette
/// colors: the effect codes (bold, then dimmed), then the foreground, then the
/// background color code.
#[verifier::external_body]
fn anstyle_render(fg: Option<u8>, bg: Option<u8>, bold: bool, dimmed: bool) -> (res: String)
    requires
        fg matches Some(n) ==> n < 16,
        bg matches Some(n) ==> n < 16,
    ensures
        res@ == effect_codes(bold, dimmed) + opt_fg_code(fg) + opt_bg_code(bg),
{
    let effects = anstyle::Effects::new()
        .set(anstyle::Effects::BOLD, bold)
        .set(anstyle::Effects::DIMMED, dimmed);
    let style = anstyle::Style::new()
        .effects(effects)
        .fg_color(fg.and_then(|n| anstyle::Ansi256Color(n).into_ansi()).map(anstyle::Color::Ansi))
        .bg_color(bg.and_then(|n| anstyle::Ansi256Color(n).into_ansi()).map(anstyle::Color::Ansi));
    style.render().to_string()
}

/// `anstyle::Style::render_reset`: the reset code, or nothing when the style
/// sets neither effect nor color.
#[verifier::external_body]
fn anstyle_render_reset(fg: Option<u8>, bg: Option<u8>, bold: bool, dimmed: bool) -> (res: String)
    requires
        fg matches Some(n) ==> n < 16,
        bg matches Some(n) ==> n < 16,
    ensures
        res@ == (if fg is None && bg is None && !bold && !dimmed { Seq::empty() } else { reset_code() }),
{
    let effects = anstyle::Effects::new()
        .set(anstyle::Effects::BOLD, bold)
        .set(anstyle::Effects::DIMMED, dimmed);
    let style = anstyle::Style::new()
        .effects(effects)
        .fg_color(fg.and_then(|n| anstyle::Ansi256Color(n).into_ansi()).map(anstyle::Color::Ansi))
        .bg_color(bg.and_then(|n| anstyle::Ansi256Color(n).into_ansi()).map(anstyle::Color::Ansi));
    style.render_reset().to_string()
}

fn color_opt_index(c: &Option<AnsiColor>) -> (res: Option<u8>)
    ensures
        res == opt_index(*c),
        res matches Some(n) ==> n < 16,
{
    match c {
        Some(c) => Some(c.index()),
        None => None,
    }
}

impl TextStyle {
    /// The style that sets nothing.
    pub fn plain() -> (s: TextStyle)
        ensures
            is_plain(s),
    {
        TextStyle { fg: None, bg: None, bold: false, dimmed: false }
    }

    /// The escape codes that switch into this style.
    pub fn render(&self) -> (res: String)
        ensures
            res@ == style_prefix(*self),
    {
        let fg = color_opt_index(&self.fg);
        let bg = color_opt_index(&self.bg);
        anstyle_render(fg, bg, self.bold, self.dimmed)
    }

    /// The full reset code, whatever the style.
    pub fn render_reset_full(&self) -> (res: String)
        ensures
            res@ == reset_code(),
    {
        let s = TextStyle { fg: None, bg: None, bold: true, dimmed: false };
        s.render_reset()
    }

    /// The escape codes that end this style (nothing for a plain style).
    pub fn render_reset(&self) -> (res: String)
        ensures
            res@ == style_suffix(*self),
    {
        let fg = color_opt_index(&self.fg);
        let bg = color_opt_index(&self.bg);
        anstyle_render_reset(fg, bg, self.bold, self.dimmed)
    }
}

/// A style with only a foreground color.
pub open spec fn fg_style(c: AnsiColor) -> TextStyle {
    TextStyle { fg: Some(c), bg: None, bold: false, dimmed: false }
}

/// Error style (red).
pub fn error_style() -> (s: TextStyle)
    ensures s == fg_style(AnsiColor::Red),
{
    TextStyle { fg: Some(AnsiColor::Red), bg: None, bold: false, dimmed: false }
}

/// Warning style (yellow).
pub fn warning_style() -> (s: TextStyle)
    ensures s == fg_style(AnsiColor::Yellow),
{
    TextStyle { fg: Some(AnsiColor::Yellow), bg: None, bold: false, dimmed: false }
}

/// Hint style (dimmed).
pub fn hint_style() -> (s: TextStyle)
    ensures s == (TextStyle { fg: None, bg: None, bold: false, dimmed: true }),
{
    TextStyle { fg: None, bg: None, bold: false, dimmed: true }
}

/// Success style (green).
pub fn success_style() -> (s: TextStyle)
    ensures s == fg_style(AnsiColor::Green),
{
    TextStyle { fg: Some(AnsiColor::Green), bg: None, bold: false, dimmed: false }
}

/// Bold style.
pub fn bold_style() -> (s: TextStyle)
    ensures s == (TextStyle { fg: None, bg: None, bold: true, dimmed: false }),
{
    TextStyle { fg: None, bg: None, bold: true, dimmed: false }
}

/// Dim style.
pub fn dim_style() -> (s: TextStyle)
    ensures s == (TextStyle { fg: None, bg: None, bold: false, dimmed: true }),
{
    TextStyle { fg: None, bg: None, bold: false, dimmed: true }
}

/// Error bold style (red and bold).
pub fn error_bold_style() -> (s: TextStyle)
    ensures s == (TextStyle { fg: Some(AnsiColor::Red), bg: None, bold: true, dimmed: false }),
{
    TextStyle { fg: Some(AnsiColor::Red), bg: None, bold: true, dimmed: false }
}

/// Primary style for worktrees (cyan).
pub fn primary_style() -> (s: TextStyle)
    ensures s == fg_style(AnsiColor::Cyan),
{
    TextStyle { fg: Some(AnsiColor::Cyan), bg: None, bold: false, dimmed: false }
}

/// Current style for worktrees (magenta and bold).
pub fn current_style() -> (s: TextStyle)
    ensures s == (TextStyle { fg: Some(AnsiColor::Magenta), bg: None, bold: true, dimmed: false }),
{
    TextStyle { fg: Some(AnsiColor::Magenta), bg: None, bold: true, dimmed: false }
}

/// Addition style for diffs (green).
pub fn addition_style() -> (s: TextStyle)
    ensures s == fg_style(AnsiColor::Green),
{
    TextStyle { fg: Some(AnsiColor::Green), bg: None, bold: false, dimmed: false }
}

/// Deletion style for diffs (red).
pub fn deletion_style() -> (s: TextStyle)
    ensures s == fg_style(AnsiColor::Red),
{
    TextStyle { fg: Some(AnsiColor::Red), bg: None, bold: false, dimmed: false }
}

/// Neutral style for diffs (yellow).
pub fn neutral_style() -> (s: TextStyle)
    ensures s == fg_style(AnsiColor::Yellow),
{
    TextStyle { fg: Some(AnsiColor::Yellow), bg: None, bold: false, dimmed: false }
}

/// Gutter style for quoted content (bright white background).
pub fn gutter_style() -> (s: TextStyle)
    ensures s == (TextStyle { fg: None, bg: Some(AnsiColor::BrightWhite), bold: false, dimmed: false }),
{
    TextStyle { fg: None, bg: Some(AnsiColor::BrightWhite), bold: false, dimmed: false }
}

// ============================================================================
// Color detection
// ============================================================================

/// Whether colored output is used: forced color wins, then `NO_COLOR`
/// disables it, otherwise it follows whether the output is a terminal.
pub open spec fn use_color(no_color: bool, force_color: bool, is_terminal: bool) -> bool {
    force_color || (!no_color && is_terminal)
}

/// Determines if colored output should be used based on the environment.
pub fn should_use_color_with_env(no_color: bool, force_color: bool, is_terminal: bool) -> (res: bool)
    ensures
        res == use_color(no_color, force_color, is_terminal),
{
    if force_color {
        return true;
    }
    if no_color {
        return false;
    }
    is_terminal
}

// ============================================================================
// Formatted messages
// ============================================================================

/// `style` + `emoji` + ` ` + `msg` + reset, or just `emoji msg` without color.
pub open spec fn emoji_message(color: bool, style: TextStyle, emoji: char, msg: Seq<char>) -> Seq<char> {
    if color {
        style_prefix(style) + seq![emoji, ' '] + msg + style_suffix(style)
    } else {
        seq![emoji, ' '] + msg
    }
}

fn emoji_message_exec(color: bool, style: TextStyle, emoji: char, msg: &str) -> (res: String)
    ensures
        res@ == emoji_message(color, style, emoji, msg@),
{
    let mut out = if color { style.render() } else { String::new() };
    push_char(&mut out, emoji);
    push_char(&mut out, ' ');
    push_str(&mut out, msg);
    if color {
        let reset = style.render_reset();
        push_str(&mut out, reset.as_str());
    }
    out
}

/// Format an error message with red color and the error emoji.
pub fn format_error(msg: &str, color: bool) -> (res: String)
    ensures
        res@ == emoji_message(color, fg_style(AnsiColor::Red), ERROR_EMOJI, msg@),
{
    emoji_message_exec(color, error_style(), ERROR_EMOJI, msg)
}

/// Format a warning message with yellow color and the warning emoji.
pub fn format_warning(msg: &str, color: bool) -> (res: String)
    ensures
        res@ == emoji_message(color, fg_style(AnsiColor::Yellow), WARNING_EMOJI, msg@),
{
    emoji_message_exec(color, warning_style(), WARNING_EMOJI, msg)
}

/// Format a hint message with dim color and the hint emoji.
pub fn format_hint(msg: &str, color: bool) -> (res: String)
    ensures
        res@ == emoji_message(color, TextStyle { fg: None, bg: None, bold: false, dimmed: true }, HINT_EMOJI, msg@),
{
    emoji_message_exec(color, hint_style(), HINT_EMOJI, msg)
}

/// `text` wrapped in a style's codes (when colored).
pub open spec fn styled_text(color: bool, style: TextStyle, text: Seq<char>) -> Seq<char> {
    if color { style_prefix(style) + text + style_suffix(style) } else { text }
}

/// Wraps text in a style's codes when `color` is set.
pub fn paint(text: &str, style: TextStyle, color: bool) -> (res: String)
    ensures
        res@ == styled_text(color, style, text@),
{
    if color {
        let mut out = style.render();
        push_str(&mut out, text);
        let reset = style.render_reset();
        push_str(&mut out, reset.as_str());
        out
    } else {
        text.to_owned()
    }
}

/// Format text with bold styling.
pub fn bold(text: &str, color: bool) -> (res: String)
    ensures
        res@ == styled_text(color, TextStyle { fg: None, bg: None, bold: true, dimmed: false }, text@),
{
    paint(text, bold_style(), color)
}

/// An error message with a bold part in the middle.
pub open spec fn error_with_bold(color: bool, prefix: Seq<char>, emphasized: Seq<char>, suffix: Seq<char>) -> Seq<char> {
    if color {
        let e = fg_style(AnsiColor::Red);
        let eb = TextStyle { fg: Some(AnsiColor::Red), bg: None, bold: true, dimmed: false };
        style_prefix(e) + seq![ERROR_EMOJI, ' '] + prefix + style_prefix(eb) + emphasized
            + style_prefix(e) + suffix + style_suffix(e)
    } else {
        seq![ERROR_EMOJI, ' '] + prefix + emphasized + suffix
    }
}

/// Format an error message with bold emphasis on one part,
/// e.g. `format_error_with_bold("Branch '", "feature-x", "' already exists", color)`.
pub fn format_error_with_bold(prefix: &str, emphasized: &str, suffix: &str, color: bool) -> (res: String)
    ensures
        res@ == error_with_bold(color, prefix@, emphasized@, suffix@),
{
    let error = error_style();
    let error_bold = error_bold_style();
    let mut out = if color { error.render() } else { String::new() };
    push_char(&mut out, ERROR_EMOJI);
    push_char(&mut out, ' ');
    push_str(&mut out, prefix);
    if color {
        let b = error_bold.render();
        push_str(&mut out, b.as_str());
    }
    push_str(&mut out, emphasized);
    if color {
        let e = error.render();
        push_str(&mut out, e.as_str());
    }
    push_str(&mut out, suffix);
    if color {
        let r = error.render_reset();
        push_str(&mut out, r.as_str());
    }
    out
}


// ============================================================================
// Styled output
// ============================================================================

/// The displayed width in terminal columns of a string, as
/// `unicode_width::UnicodeWidthStr::width` computes it.
pub uninterp spec fn display_width(s: Seq<char>) -> usize;

/// A string of spaces only.
pub open spec fn all_spaces(s: Seq<char>) -> bool {
    forall|i: int| 0 <= i < s.len() ==> s[i] == ' '
}

/// `unicode_width::UnicodeWidthStr::width`: the displayed width of `s`
/// (each space is one column wide).
#[verifier::external_body]
fn unicode_width(s: &str) -> (w: usize)
    ensures
        w == display_width(s@),
        all_spaces(s@) ==> w == s@.len(),
{
    unicode_width::UnicodeWidthStr::width(s)
}

/// A piece of text with an optional style.
#[derive(Clone, Debug)]
pub struct StyledString {
    pub text: String,
    pub style: Option<TextStyle>,
}

/// The rendering of one styled piece.
pub open spec fn render_segment(seg: StyledString) -> Seq<char> {
    match seg.style {
        Some(style) => style_prefix(style) + seg.text@ + style_suffix(style),
        None => seg.text@,
    }
}

impl StyledString {
    pub fn new(text: String, style: Option<TextStyle>) -> (s: Self)
        ensures
            s.text@ == text@,
            s.style == style,
    {
        StyledString { text, style }
    }

    pub fn raw(text: String) -> (s: Self)
        ensures
            s.text@ == text@,
            s.style is None,
    {
        Self::new(text, None)
    }

    pub fn styled(text: String, style: TextStyle) -> (s: Self)
        ensures
            s.text@ == text@,
            s.style == Some(style),
    {
        Self::new(text, Some(style))
    }

    /// The visual width of the text (unicode-aware, no ANSI codes).
    pub fn width(&self) -> (w: usize)
        ensures
            w == display_width(self.text@),
            all_spaces(self.text@) ==> w == self.text@.len(),
    {
        unicode_width(self.text.as_str())
    }

    /// Renders to a string with ANSI escape codes.
    pub fn render(&self) -> (res: String)
        ensures
            res@ == render_segment(*self),
    {
        match &self.style {
            Some(style) => {
                let mut out = style.render();
                push_str(&mut out, self.text.as_str());
                let reset = style.render_reset();
                push_str(&mut out, reset.as_str());
                out
            },
            None => self.text.clone(),
        }
    }
}

/// The sum of the displayed widths of the segments.
pub open spec fn widths_sum(segs: Seq<StyledString>) -> nat
    decreases segs.len(),
{
    if segs.len() == 0 {
        0
    } else {
        widths_sum(segs.drop_last()) + display_width(segs.last().text@) as nat
    }
}

/// The width of a line: the sum of its segments' widths, saturated at
/// `usize::MAX`.
pub open spec fn line_width(segs: Seq<StyledString>) -> usize {
    if widths_sum(segs) <= usize::MAX { widths_sum(segs) as usize } else { usize::MAX }
}

/// The rendering of a sequence of segments.
pub open spec fn render_segments(segs: Seq<StyledString>) -> Seq<char>
    decreases segs.len(),
{
    if segs.len() == 0 {
        Seq::empty()
    } else {
        render_segments(segs.drop_last()) + render_segment(segs.last())
    }
}

/// A string of `n` spaces.
pub open spec fn spaces(n: nat) -> Seq<char> {
    Seq::new(n, |i: int| ' ')
}

/// `n` spaces, which are `n` columns wide.
pub fn repeat_space(n: usize) -> (res: String)
    ensures
        res@ == spaces(n as nat),
        display_width(res@) == n,
{
    let mut out = String::new();
    let mut i: usize = 0;
    while i < n
        invariant
            i <= n,
            out@ == spaces(i as nat),
        decreases n - i,
    {
        push_char(&mut out, ' ');
        i = i + 1;
        assert(out@ =~= spaces(i as nat));
    }
    let w = unicode_width(out.as_str());
    assert(w == n);
    out
}

/// A line composed of multiple styled strings.
#[derive(Clone, Debug)]
pub struct StyledLine {
    pub segments: Vec<StyledString>,
}

impl StyledLine {
    pub fn new() -> (l: Self)
        ensures
            l.segments@.len() == 0,
    {
        StyledLine { segments: Vec::new() }
    }

    /// Add a raw (unstyled) segment.
    pub fn push_raw(&mut self, text: String)
        ensures
            final(self).segments@.len() == old(self).segments@.len() + 1,
            final(self).segments@.drop_last() == old(self).segments@,
            final(self).segments@.last().text@ == text@,
            final(self).segments@.last().style is None,
    {
        self.segments.push(StyledString::raw(text));
    }

    /// Add a styled segment.
    pub fn push_styled(&mut self, text: String, style: TextStyle)
        ensures
            final(self).segments@.len() == old(self).segments@.len() + 1,
            final(self).segments@.drop_last() == old(self).segments@,
            final(self).segments@.last().text@ == text@,
            final(self).segments@.last().style == Some(style),
    {
        self.segments.push(StyledString::styled(text, style));
    }

    /// Add a segment.
    pub fn push(&mut self, segment: StyledString)
        ensures
            final(self).segments@ == old(self).segments@.push(segment),
    {
        self.segments.push(segment);
    }

    /// The total visual width (saturating).
    pub fn width(&self) -> (w: usize)
        ensures
            w == line_width(self.segments@),
    {
        let mut total: usize = 0;
        let mut i: usize = 0;
        while i < self.segments.len()
            invariant
                i <= self.segments@.len(),
                total == line_width(self.segments@.take(i as int)),
            decreases self.segments@.len() - i,
        {
            let w = self.segments[i].width();
            proof {
                assert(self.segments@.take(i + 1).drop_last() == self.segments@.take(i as int));
            }
            total = total.saturating_add(w);
            i = i + 1;
        }
        proof {
            assert(self.segments@.take(self.segments@.len() as int) == self.segments@);
        }
        total
    }

    /// Pad with spaces to reach a specific width: afterwards the line is
    /// `max(width, target_width)` columns wide.
    pub fn pad_to(&mut self, target_width: usize)
        ensures
            line_width(final(self).segments@) == if line_width(old(self).segments@) < target_width {
                target_width
            } else {
                line_width(old(self).segments@)
            },
            line_width(old(self).segments@) < target_width ==> {
                &&& final(self).segments@.drop_last() == old(self).segments@
                &&& final(self).segments@.last().text@
                    == spaces((target_width - line_width(old(self).segments@)) as nat)
                &&& final(self).segments@.last().style is None
            },
            line_width(old(self).segments@) >= target_width ==> final(self).segments@ == old(self).segments@,
    {
        let current_width = self.width();
        if current_width < target_width {
            let pad = repeat_space(target_width - current_width);
            self.push_raw(pad);
            proof {
                let segs = self.segments@;
                assert(segs.drop_last() == old(self).segments@);
                assert(widths_sum(segs) == widths_sum(old(self).segments@) + (target_width - current_width));
            }
        }
    }

    /// Renders the entire line with ANSI escape codes.
    pub fn render(&self) -> (res: String)
        ensures
            res@ == render_segments(self.segments@),
    {
        let mut out = String::new();
        let mut i: usize = 0;
        while i < self.segments.len()
            invariant
                i <= self.segments@.len(),
                out@ == render_segments(self.segments@.take(i as int)),
            decreases self.segments@.len() - i,
        {
            let r = self.segments[i].render();
            push_str(&mut out, r.as_str());
            proof {
                assert(self.segments@.take(i + 1).drop_last() == self.segments@.take(i as int));
            }
            i = i + 1;
        }
        proof {
            assert(self.segments@.take(self.segments@.len() as int) == self.segments@);
        }
        out
    }
}


// ============================================================================
// Rich messages: plain, bold and gray parts inside a colored message
// ============================================================================

/// How a part of a message is emphasized.
#[derive(Debug, Clone, Copy, PartialEq, Eq, Structural)]
pub enum PartKind {
    Plain,
    Bold,
    Gray,
}

/// A part of a message.
#[derive(Debug)]
pub struct MsgPart {
    pub text: String,
    pub kind: PartKind,
}

/// The view of a message part.
pub open spec fn part_view(p: MsgPart) -> (Seq<char>, PartKind) {
    (p.text@, p.kind)
}

/// The views of message parts.
pub open spec fn parts_view(ps: Seq<MsgPart>) -> Seq<(Seq<char>, PartKind)> {
    ps.map_values(|p: MsgPart| part_view(p))
}

/// A plain part.
pub open spec fn pl(t: Seq<char>) -> (Seq<char>, PartKind) {
    (t, PartKind::Plain)
}

/// A bold part.
pub open spec fn bo(t: Seq<char>) -> (Seq<char>, PartKind) {
    (t, PartKind::Bold)
}

/// A gray part.
pub open spec fn gr(t: Seq<char>) -> (Seq<char>, PartKind) {
    (t, PartKind::Gray)
}

/// The style of an emphasized part inside text of style `base`.
pub open spec fn emphasis_style(base: TextStyle, kind: PartKind) -> TextStyle {
    match kind {
        PartKind::Bold => TextStyle { bold: true, ..base },
        _ => TextStyle { fg: Some(AnsiColor::BrightBlack), ..base },
    }
}

/// One part rendered inside text of style `base`: an emphasized part
/// switches to its style and back (reset, then the base style again).
pub open spec fn render_part(color: bool, base: TextStyle, p: (Seq<char>, PartKind)) -> Seq<char> {
    if color && p.1 != PartKind::Plain {
        style_prefix(emphasis_style(base, p.1)) + p.0 + reset_code() + style_prefix(base)
    } else {
        p.0
    }
}

/// Parts rendered in order.
pub open spec fn render_parts(color: bool, base: TextStyle, ps: Seq<(Seq<char>, PartKind)>) -> Seq<char>
    decreases ps.len(),
{
    if ps.len() == 0 { Seq::empty() } else { render_parts(color, base, ps.drop_last()) + render_part(color, base, ps.last()) }
}

/// The text of the parts without any codes.
pub open spec fn plain_text(ps: Seq<(Seq<char>, PartKind)>) -> Seq<char> {
    render_parts(false, TextStyle { fg: None, bg: None, bold: false, dimmed: false }, ps)
}

/// A message: emoji, space and parts, all in the base style when colored.
pub open spec fn rich_message(color: bool, base: TextStyle, emoji: char, ps: Seq<(Seq<char>, PartKind)>) -> Seq<char> {
    if color {
        style_prefix(base) + seq![emoji, ' '] + render_parts(true, base, ps) + style_suffix(base)
    } else {
        seq![emoji, ' '] + render_parts(false, base, ps)
    }
}

/// The style of hints.
pub open spec fn dim() -> TextStyle {
    TextStyle { fg: None, bg: None, bold: false, dimmed: true }
}

/// An error message (red, with the error emoji).
pub open spec fn error_msg(color: bool, ps: Seq<(Seq<char>, PartKind)>) -> Seq<char> {
    rich_message(color, fg_style(AnsiColor::Red), ERROR_EMOJI, ps)
}

/// A hint message (dimmed, with the hint emoji).
pub open spec fn hint_msg(color: bool, ps: Seq<(Seq<char>, PartKind)>) -> Seq<char> {
    rich_message(color, dim(), HINT_EMOJI, ps)
}

/// A message part.
pub fn part(text: &str, kind: PartKind) -> (p: MsgPart)
    ensures
        part_view(p) == (text@, kind),
{
    MsgPart { text: text.to_owned(), kind }
}

fn render_parts_exec(color: bool, base: TextStyle, ps: &Vec<MsgPart>) -> (res: String)
    ensures
        res@ == render_parts(color, base, parts_view(ps@)),
{
    let mut out = String::new();
    let mut i: usize = 0;
    while i < ps.len()
        invariant
            i <= ps@.len(),
            out@ == render_parts(color, base, parts_view(ps@.take(i as int))),
        decreases ps@.len() - i,
    {
        let p = &ps[i];
        if color && p.kind != PartKind::Plain {
            let st = match p.kind {
                PartKind::Bold => TextStyle { bold: true, ..base },
                _ => TextStyle { fg: Some(AnsiColor::BrightBlack), ..base },
            };
            let pre = st.render();
            push_str(&mut out, pre.as_str());
            push_str(&mut out, p.text.as_str());
            let reset = TextStyle::plain().render_reset_full();
            push_str(&mut out, reset.as_str());
            let again = base.render();
            push_str(&mut out, again.as_str());
        } else {
            push_str(&mut out, p.text.as_str());
        }
        proof {
            assert(ps@.take(i + 1).drop_last() == ps@.take(i as int));
            assert(parts_view(ps@.take(i + 1)).drop_last() =~= parts_view(ps@.take(i as int)));
        }
        i = i + 1;
    }
    proof {
        assert(ps@.take(ps@.len() as int) == ps@);
    }
    out
}

/// The views of literal message parts.
pub open spec fn lit_parts(a: Seq<(&str, PartKind)>) -> Seq<(Seq<char>, PartKind)> {
    Seq::new(a.len(), |i: int| (a[i].0@, a[i].1))
}

/// A vector of message parts, one for each literal part; the length-wise
/// forms spell the result out for the short lists that messages use.
pub fn parts(a: &[(&str, PartKind)]) -> (v: Vec<MsgPart>)
    ensures
        parts_view(v@) == lit_parts(a@),
        a@.len() == 1 ==> parts_view(v@) == seq![(a@[0].0@, a@[0].1)],
        a@.len() == 2 ==> parts_view(v@) == seq![(a@[0].0@, a@[0].1), (a@[1].0@, a@[1].1)],
        a@.len() == 3 ==> parts_view(v@) == seq![(a@[0].0@, a@[0].1), (a@[1].0@, a@[1].1), (a@[2].0@, a@[2].1)],
        a@.len() == 4 ==> parts_view(v@) == seq![(a@[0].0@, a@[0].1), (a@[1].0@, a@[1].1), (a@[2].0@, a@[2].1), (a@[3].0@, a@[3].1)],
        a@.len() == 5 ==> parts_view(v@) == seq![(a@[0].0@, a@[0].1), (a@[1].0@, a@[1].1), (a@[2].0@, a@[2].1), (a@[3].0@, a@[3].1), (a@[4].0@, a@[4].1)],
        a@.len() == 6 ==> parts_view(v@) == seq![(a@[0].0@, a@[0].1), (a@[1].0@, a@[1].1), (a@[2].0@, a@[2].1), (a@[3].0@, a@[3].1), (a@[4].0@, a@[4].1), (a@[5].0@, a@[5].1)],
        a@.len() == 7 ==> parts_view(v@) == seq![(a@[0].0@, a@[0].1), (a@[1].0@, a@[1].1), (a@[2].0@, a@[2].1), (a@[3].0@, a@[3].1), (a@[4].0@, a@[4].1), (a@[5].0@, a@[5].1), (a@[6].0@, a@[6].1)],
{
    let mut v: Vec<MsgPart> = Vec::new();
    let mut i: usize = 0;
    while i < a.len()
        invariant
            i <= a@.len(),
            v@.len() == i,
            forall|j: int| 0 <= j < i ==> part_view(#[trigger] v@[j]) == (a@[j].0@, a@[j].1),
        decreases a@.len() - i,
    {
        v.push(part(a[i].0, a[i].1));
        i = i + 1;
    }
    assert(parts_view(v@) =~= lit_parts(a@));
    assert(a@.len() == 1 ==> parts_view(v@) =~= seq![(a@[0].0@, a@[0].1)]);
    assert(a@.len() == 2 ==> parts_view(v@) =~= seq![(a@[0].0@, a@[0].1), (a@[1].0@, a@[1].1)]);
    assert(a@.len() == 3 ==> parts_view(v@) =~= seq![(a@[0].0@, a@[0].1), (a@[1].0@, a@[1].1), (a@[2].0@, a@[2].1)]);
    assert(a@.len() == 4 ==> parts_view(v@) =~= seq![(a@[0].0@, a@[0].1), (a@[1].0@, a@[1].1), (a@[2].0@, a@[2].1), (a@[3].0@, a@[3].1)]);
    assert(a@.len() == 5 ==> parts_view(v@) =~= seq![(a@[0].0@, a@[0].1), (a@[1].0@, a@[1].1), (a@[2].0@, a@[2].1), (a@[3].0@, a@[3].1), (a@[4].0@, a@[4].1)]);
    assert(a@.len() == 6 ==> parts_view(v@) =~= seq![(a@[0].0@, a@[0].1), (a@[1].0@, a@[1].1), (a@[2].0@, a@[2].1), (a@[3].0@, a@[3].1), (a@[4].0@, a@[4].1), (a@[5].0@, a@[5].1)]);
    assert(a@.len() == 7 ==> parts_view(v@) =~= seq![(a@[0].0@, a@[0].1), (a@[1].0@, a@[1].1), (a@[2].0@, a@[2].1), (a@[3].0@, a@[3].1), (a@[4].0@, a@[4].1), (a@[5].0@, a@[5].1), (a@[6].0@, a@[6].1)]);
    v
}

/// A success message (green, with the success emoji).
pub open spec fn success_msg(color: bool, ps: Seq<(Seq<char>, PartKind)>) -> Seq<char> {
    rich_message(color, fg_style(AnsiColor::Green), SUCCESS_EMOJI, ps)
}

/// A progress message (cyan, with the progress emoji).
pub open spec fn progress_msg(color: bool, ps: Seq<(Seq<char>, PartKind)>) -> Seq<char> {
    rich_message(color, fg_style(AnsiColor::Cyan), PROGRESS_EMOJI, ps)
}

/// A warning message (yellow, with the warning emoji).
pub open spec fn warning_msg(color: bool, ps: Seq<(Seq<char>, PartKind)>) -> Seq<char> {
    rich_message(color, fg_style(AnsiColor::Yellow), WARNING_EMOJI, ps)
}

/// Render a message: emoji and parts in the base style.
pub fn rich_message_exec(color: bool, base: TextStyle, emoji: char, ps: &Vec<MsgPart>) -> (res: String)
    ensures
        res@ == rich_message(color, base, emoji, parts_view(ps@)),
{
    let mut out = if color { base.render() } else { String::new() };
    push_char(&mut out, emoji);
    push_char(&mut out, ' ');
    let body = render_parts_exec(color, base, ps);
    push_str(&mut out, body.as_str());
    if color {
        let r = base.render_reset();
        push_str(&mut out, r.as_str());
    }
    out
}

/// An error message from parts.
pub fn error_message(ps: &Vec<MsgPart>, color: bool) -> (res: String)
    ensures
        res@ == error_msg(color, parts_view(ps@)),
{
    rich_message_exec(color, error_style(), ERROR_EMOJI, ps)
}

/// A success message from parts.
pub fn success_message(ps: &Vec<MsgPart>, color: bool) -> (res: String)
    ensures
        res@ == success_msg(color, parts_view(ps@)),
{
    rich_message_exec(color, success_style(), SUCCESS_EMOJI, ps)
}

/// A progress message from parts.
pub fn progress_message(ps: &Vec<MsgPart>, color: bool) -> (res: String)
    ensures
        res@ == progress_msg(color, parts_view(ps@)),
{
    rich_message_exec(color, primary_style(), PROGRESS_EMOJI, ps)
}

/// A warning message from parts.
pub fn warning_message(ps: &Vec<MsgPart>, color: bool) -> (res: String)
    ensures
        res@ == warning_msg(color, parts_view(ps@)),
{
    rich_message_exec(color, warning_style(), WARNING_EMOJI, ps)
}

/// A hint message from parts.
pub fn hint_message(ps: &Vec<MsgPart>, color: bool) -> (res: String)
    ensures
        res@ == hint_msg(color, parts_view(ps@)),
{
    rich_message_exec(color, hint_style(), HINT_EMOJI, ps)
}

/// An informational message: the info emoji, a space, and the text.
pub fn info_message(text: &str) -> (res: String)
    ensures
        res@ == seq![INFO_EMOJI, ' '] + text@,
{
    let mut out = String::new();
    push_char(&mut out, INFO_EMOJI);
    push_char(&mut out, ' ');
    push_str(&mut out, text);
    out
}

/// The gutter mark that starts each quoted line.
pub open spec fn gutter_mark(color: bool) -> Seq<char> {
    let g = TextStyle { fg: None, bg: Some(AnsiColor::BrightWhite), bold: false, dimmed: false };
    if color { style_prefix(g) + seq![' '] + style_suffix(g) } else { seq![' '] }
}

/// Quoted lines: each line prefixed by the margin, the gutter mark and two
/// spaces, and ended with a newline.
pub open spec fn gutter_lines(margin: Seq<char>, color: bool, ls: Seq<Seq<char>>) -> Seq<char>
    decreases ls.len(),
{
    if ls.len() == 0 {
        Seq::empty()
    } else {
        gutter_lines(margin, color, ls.drop_last()) + margin + gutter_mark(color) + seq![' ', ' '] + ls.last() + seq!['\n']
    }
}

/// Format content (commands, config, error details) with a gutter: every
/// line of `content` is indented by `left_margin` and marked.
pub fn format_with_gutter(content: &str, left_margin: &str, color: bool) -> (res: String)
    ensures
        res@ == gutter_lines(left_margin@, color, crate::text::lines(content@)),
{
    let ls = crate::text::split_lines(content);
    let g = gutter_style();
    let mark = if color {
        let mut m = g.render();
        push_char(&mut m, ' ');
        let r = g.render_reset();
        push_str(&mut m, r.as_str());
        m
    } else {
        let mut m = String::new();
        push_char(&mut m, ' ');
        m
    };
    let mut out = String::new();
    let mut i: usize = 0;
    while i < ls.len()
        invariant
            i <= ls@.len(),
            ls@.len() == crate::text::lines(content@).len(),
            forall|k: int| 0 <= k < ls@.len() ==> #[trigger] ls@[k]@ == crate::text::lines(content@)[k],
            mark@ == gutter_mark(color),
            out@ == gutter_lines(left_margin@, color, crate::text::lines(content@).take(i as int)),
        decreases ls@.len() - i,
    {
        push_str(&mut out, left_margin);
        push_str(&mut out, mark.as_str());
        push_char(&mut out, ' ');
        push_char(&mut out, ' ');
        push_str(&mut out, ls[i].as_str());
        push_char(&mut out, '\n');
        proof {
            let all = crate::text::lines(content@);
            assert(all.take(i + 1).drop_last() == all.take(i as int));
        }
        i = i + 1;
    }
    proof {
        let all = crate::text::lines(content@);
        assert(all.take(all.len() as int) == all);
    }
    out
}

} // verus!
