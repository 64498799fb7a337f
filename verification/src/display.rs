//! What the status display shows: a frame of text regions at fixed pixel
//! positions, derived from the system status, and the cycle that draws it.
//!
//! The frame is laid out in the 6x9 ASCII font of `embedded-graphics` on a
//! 128x64 monochrome surface. Every frame is drawn in full: clear, each item
//! in order, flush. An item that fails to draw does not stop the rest.

use vstd::prelude::*;
use crate::status::SystemStatus;
use embedded_graphics::mono_font::ascii::FONT_6X9;
use embedded_graphics::mono_font::MonoTextStyle;
use embedded_graphics::pixelcolor::BinaryColor;
use embedded_graphics::text::renderer::TextRenderer;
use embedded_graphics::text::Baseline;

verus! {

/// Width of the display surface in pixels.
pub const DISPLAY_WIDTH: i32 = 128;

/// Height of the display surface in pixels.
pub const DISPLAY_HEIGHT: i32 = 64;

/// Height of a character cell of the font.
pub const FONT_HEIGHT: i32 = 9;

/// Width of a character cell of the font.
pub const CHAR_WIDTH: i32 = 6;

/// How a text region is drawn.
#[derive(Clone, Copy, Debug, PartialEq, Eq, Structural)]
pub enum TextStyle {
    /// Lit text on a dark ground.
    Normal,
    /// Lit text with a line below it.
    Underline,
    /// Dark text on a lit ground.
    Highlight,
}

/// A pixel position: `x` to the right, `y` down.
#[derive(Clone, Copy, Debug, PartialEq, Eq, Structural)]
pub struct Position {
    pub x: i32,
    pub y: i32,
}

/// One run of text. `origin` is the left end of its baseline.
#[derive(Clone, Copy, Debug, PartialEq, Eq)]
pub struct TextRegion {
    pub text: &'static str,
    pub origin: Position,
    pub style: TextStyle,
}

/// A line one pixel wide.
#[derive(Clone, Copy, Debug, PartialEq, Eq, Structural)]
pub struct Separator {
    pub start: Position,
    pub end: Position,
}

/// One thing to draw.
#[derive(Clone, Copy, Debug, PartialEq, Eq)]
pub enum FrameItem {
    Text(TextRegion),
    Line(Separator),
}

/// What a frame item is: a text region by its characters, or a line.
pub enum ItemView {
    Text { text: Seq<char>, origin: Position, style: TextStyle },
    Line { start: Position, end: Position },
}

impl View for TextRegion {
    type V = ItemView;

    open spec fn view(&self) -> ItemView {
        ItemView::Text { text: self.text@, origin: self.origin, style: self.style }
    }
}

impl View for FrameItem {
    type V = ItemView;

    open spec fn view(&self) -> ItemView {
        match *self {
            FrameItem::Text(region) => region@,
            FrameItem::Line(line) => ItemView::Line { start: line.start, end: line.end },
        }
    }
}

/// Everything one render cycle draws, in drawing order.
#[derive(Clone, Debug, PartialEq, Eq)]
pub struct DisplayFrame {
    pub items: Vec<FrameItem>,
}

impl View for DisplayFrame {
    type V = Seq<ItemView>;

    open spec fn view(&self) -> Seq<ItemView> {
        self.items@.map_values(|item: FrameItem| item@)
    }
}

/// The character of a decimal digit.
pub open spec fn digit_char(d: int) -> char {
    ((48 + d) as u8) as char
}

/// The word for a status.
pub open spec fn status_text(status: SystemStatus) -> Seq<char> {
    match status {
        SystemStatus::Nominal => "nominal"@,
        SystemStatus::Warning => "warning"@,
        SystemStatus::Critical => "critical"@,
    }
}

/// The style of the word for a status: only the nominal status is plain.
pub open spec fn status_style(status: SystemStatus) -> TextStyle {
    match status {
        SystemStatus::Nominal => TextStyle::Normal,
        SystemStatus::Warning => TextStyle::Underline,
        SystemStatus::Critical => TextStyle::Underline,
    }
}

/// The device count as shown: in decimal up to ten, and `>10` above.
pub open spec fn count_text(device_count: u32) -> Seq<char> {
    if device_count <= 9 {
        seq![digit_char(device_count as int)]
    } else if device_count == 10 {
        seq!['1', '0']
    } else {
        seq!['>', '1', '0']
    }
}

/// Baseline of the status line.
pub open spec fn status_line_y() -> int {
    FONT_HEIGHT - 3
}

/// Height at which the separator runs.
pub open spec fn separator_y() -> int {
    status_line_y() + 4
}

/// Baseline of the device-count line.
pub open spec fn devices_line_y() -> int {
    separator_y() + FONT_HEIGHT
}

/// Baseline of the leak banner.
pub open spec fn banner_y() -> int {
    devices_line_y() + FONT_HEIGHT
}

/// Where the text behind `text` starts when `text` starts at `x`.
pub open spec fn advance(x: int, text: Seq<char>) -> int {
    x + CHAR_WIDTH * text.len()
}

/// A text region at `(x, y)`.
pub open spec fn text_at(text: Seq<char>, x: int, y: int, style: TextStyle) -> ItemView {
    ItemView::Text { text, origin: Position { x: x as i32, y: y as i32 }, style }
}

/// The frame for a status, a device count and a leak fact: the status line,
/// the separator across the full width, the device-count line, and the leak
/// banner where a leak is reported.
pub open spec fn frame_of(status: SystemStatus, device_count: u32, leak: bool) -> Seq<ItemView> {
    let head = seq![
        text_at("Status: "@, 0, status_line_y(), TextStyle::Normal),
        text_at(
            status_text(status),
            advance(0, "Status: "@),
            status_line_y(),
            status_style(status),
        ),
        ItemView::Line {
            start: Position { x: 0, y: separator_y() as i32 },
            end: Position { x: DISPLAY_WIDTH, y: separator_y() as i32 },
        },
        text_at("CAN devices: "@, 0, devices_line_y(), TextStyle::Normal),
        text_at(
            count_text(device_count),
            advance(0, "CAN devices: "@),
            devices_line_y(),
            TextStyle::Normal,
        ),
    ];
    if leak {
        head.push(text_at("LEAK DETECTED!"@, 0, banner_y(), TextStyle::Highlight))
    } else {
        head
    }
}

/// The cell height of the font `FONT_6X9` of `embedded-graphics`, read from
/// the font's `character_size`. The font's definition gives 9.
#[verifier::external_body]
fn font_height() -> (h: u32)
    ensures
        h == FONT_HEIGHT,
{
    FONT_6X9.character_size.height
}

/// `MonoTextStyle::measure_string` of `embedded-graphics` for the font
/// `FONT_6X9`, reduced to the position at which the next text starts when
/// `text` is set at `(x, y)`. That position lies on the same line, one cell
/// width of 6 pixels further right for each character: the font has no
/// spacing between characters. The bounds keep the crate's own arithmetic
/// within `i32`.
#[verifier::external_body]
fn next_text_position(text: &str, x: i32, y: i32) -> (next: Position)
    requires
        CHAR_WIDTH * text@.len() <= i32::MAX,
        x + CHAR_WIDTH * text@.len() <= i32::MAX,
        y - FONT_HEIGHT >= i32::MIN,
    ensures
        next.x == advance(x as int, text@),
        next.y == y,
{
    let style = MonoTextStyle::new(&FONT_6X9, BinaryColor::On);
    let origin = embedded_graphics::geometry::Point::new(x, y);
    let metrics = style.measure_string(text, origin, Baseline::Alphabetic);
    Position { x: metrics.next_position.x, y: metrics.next_position.y }
}

/// The word for a status.
pub fn status_label(status: SystemStatus) -> (label: &'static str)
    ensures
        label@ == status_text(status),
{
    match status {
        SystemStatus::Nominal => "nominal",
        SystemStatus::Warning => "warning",
        SystemStatus::Critical => "critical",
    }
}

/// The style in which the word for a status is drawn.
pub fn style_for(status: SystemStatus) -> (style: TextStyle)
    ensures
        style == status_style(status),
{
    match status {
        SystemStatus::Nominal => TextStyle::Normal,
        SystemStatus::Warning => TextStyle::Underline,
        SystemStatus::Critical => TextStyle::Underline,
    }
}

/// The device count as shown. The display is laid out for a handful of
/// devices: counts up to ten are written out, larger ones read `>10`.
pub fn device_count_label(device_count: u32) -> (label: &'static str)
    ensures
        label@ == count_text(device_count),
        1 <= label@.len() <= 3,
{
    proof {
        reveal_strlit("0");
        reveal_strlit("1");
        reveal_strlit("2");
        reveal_strlit("3");
        reveal_strlit("4");
        reveal_strlit("5");
        reveal_strlit("6");
        reveal_strlit("7");
        reveal_strlit("8");
        reveal_strlit("9");
        reveal_strlit("10");
        reveal_strlit(">10");
    }
    let label = match device_count {
        0 => "0",
        1 => "1",
        2 => "2",
        3 => "3",
        4 => "4",
        5 => "5",
        6 => "6",
        7 => "7",
        8 => "8",
        9 => "9",
        10 => "10",
        _ => ">10",
    };
    assert(label@ =~= count_text(device_count));
    label
}

/// Lays out the frame for a status, a device count and a leak fact.
///
/// The leak banner is shown exactly where `leak` holds. For a status that
/// was derived from the same facts this is exactly where the status is
/// critical.
pub fn render(status: SystemStatus, device_count: u32, leak: bool) -> (frame: DisplayFrame)
    ensures
        frame@ == frame_of(status, device_count, leak),
{
    proof {
        reveal_strlit("Status: ");
        reveal_strlit("CAN devices: ");
        reveal_strlit("nominal");
        reveal_strlit("warning");
        reveal_strlit("critical");
    }
    let height: i32 = font_height() as i32;
    let status_y: i32 = height - 3;
    let rule_y: i32 = status_y + 4;
    let devices_y: i32 = rule_y + height;
    let banner_y: i32 = devices_y + height;

    let mut items: Vec<FrameItem> = Vec::new();
    let status_title = "Status: ";
    let after_title = next_text_position(status_title, 0, status_y);
    items.push(
        FrameItem::Text(
            TextRegion {
                text: status_title,
                origin: Position { x: 0, y: status_y },
                style: TextStyle::Normal,
            },
        ),
    );
    items.push(
        FrameItem::Text(
            TextRegion { text: status_label(status), origin: after_title, style: style_for(status) },
        ),
    );
    items.push(
        FrameItem::Line(
            Separator {
                start: Position { x: 0, y: rule_y },
                end: Position { x: DISPLAY_WIDTH, y: rule_y },
            },
        ),
    );
    let devices_title = "CAN devices: ";
    let after_devices = next_text_position(devices_title, 0, devices_y);
    items.push(
        FrameItem::Text(
            TextRegion {
                text: devices_title,
                origin: Position { x: 0, y: devices_y },
                style: TextStyle::Normal,
            },
        ),
    );
    items.push(
        FrameItem::Text(
            TextRegion {
                text: device_count_label(device_count),
                origin: after_devices,
                style: TextStyle::Normal,
            },
        ),
    );
    if leak {
        items.push(
            FrameItem::Text(
                TextRegion {
                    text: "LEAK DETECTED!",
                    origin: Position { x: 0, y: banner_y },
                    style: TextStyle::Highlight,
                },
            ),
        );
    }
    let frame = DisplayFrame { items };
    assert(frame@ =~= frame_of(status, device_count, leak));
    frame
}

/// One step of a render cycle.
#[derive(Clone, Copy, Debug, PartialEq, Eq)]
pub enum RenderAction {
    /// Blank the framebuffer.
    Clear,
    /// Draw one item of the frame.
    Draw(FrameItem),
    /// Send the framebuffer to the display.
    Flush,
}

/// What a render action is.
pub enum ActionView {
    Clear,
    Draw(ItemView),
    Flush,
}

impl View for RenderAction {
    type V = ActionView;

    open spec fn view(&self) -> ActionView {
        match *self {
            RenderAction::Clear => ActionView::Clear,
            RenderAction::Draw(item) => ActionView::Draw(item@),
            RenderAction::Flush => ActionView::Flush,
        }
    }
}

/// What a render cycle is: the frame it draws, how many actions have been
/// performed, and how many of them failed.
pub struct RenderCycleView {
    pub frame: Seq<ItemView>,
    pub step: int,
    pub failures: int,
}

/// The number of actions in the cycle for `frame`: clear, one per item,
/// flush.
pub open spec fn cycle_length(frame: Seq<ItemView>) -> int {
    (frame.len() + 2) as int
}

/// The action that comes up at `step`, if the cycle is not over there.
pub open spec fn action_at(frame: Seq<ItemView>, step: int) -> Option<ActionView> {
    if step == 0 {
        Some(ActionView::Clear)
    } else if 1 <= step <= frame.len() {
        Some(ActionView::Draw(frame[step - 1]))
    } else if step == frame.len() + 1 {
        Some(ActionView::Flush)
    } else {
        None
    }
}

/// The cycle after the outcome of the action at hand was recorded: the next
/// action is at hand whether this one succeeded or not. A finished cycle
/// takes no more outcomes.
pub open spec fn recorded(v: RenderCycleView, ok: bool) -> RenderCycleView {
    if v.step < cycle_length(v.frame) {
        RenderCycleView {
            step: v.step + 1,
            failures: if ok {
                v.failures
            } else {
                v.failures + 1
            },
            ..v
        }
    } else {
        v
    }
}

/// The cycle after a run of outcomes was recorded, one after the other.
pub open spec fn replayed(v: RenderCycleView, outcomes: Seq<bool>) -> RenderCycleView
    decreases outcomes.len(),
{
    if outcomes.len() == 0 {
        v
    } else {
        recorded(replayed(v, outcomes.drop_last()), outcomes.last())
    }
}

/// How many of the outcomes are failures.
pub open spec fn failure_count(outcomes: Seq<bool>) -> int
    decreases outcomes.len(),
{
    if outcomes.len() == 0 {
        0
    } else {
        failure_count(outcomes.drop_last()) + if outcomes.last() {
            0int
        } else {
            1int
        }
    }
}

/// A failure does not cut a cycle short. Whatever the outcomes, a fresh
/// cycle that has been told the outcome of `k` actions has `k` actions
/// behind it and the next one at hand, and it has counted exactly the
/// failures among them. So every item of the frame comes up, and the cycle
/// ends after the flush and not before.
pub proof fn lemma_failures_do_not_stop_the_cycle(frame: Seq<ItemView>, outcomes: Seq<bool>)
    requires
        outcomes.len() <= cycle_length(frame),
    ensures
        replayed(RenderCycleView { frame, step: 0, failures: 0 }, outcomes).frame == frame,
        replayed(RenderCycleView { frame, step: 0, failures: 0 }, outcomes).step == outcomes.len(),
        replayed(RenderCycleView { frame, step: 0, failures: 0 }, outcomes).failures
            == failure_count(outcomes),
        0 <= failure_count(outcomes) <= outcomes.len(),
        action_at(frame, outcomes.len() as int) is None <==> outcomes.len() == cycle_length(frame),
    decreases outcomes.len(),
{
    if outcomes.len() > 0 {
        lemma_failures_do_not_stop_the_cycle(frame, outcomes.drop_last());
    }
}

/// Drawing a frame, one action at a time. The cycle says what to do next;
/// the caller does it and reports how it went.
pub struct RenderCycle {
    frame: DisplayFrame,
    step: usize,
    failures: usize,
}

impl View for RenderCycle {
    type V = RenderCycleView;

    closed spec fn view(&self) -> RenderCycleView {
        RenderCycleView {
            frame: self.frame@,
            step: self.step as int,
            failures: self.failures as int,
        }
    }
}

impl RenderCycle {
    /// The cycle's invariant: it is within its actions, and has counted no
    /// more failures than actions.
    pub open spec fn wf(&self) -> bool {
        &&& 0 <= self@.failures <= self@.step <= cycle_length(self@.frame)
        &&& cycle_length(self@.frame) <= usize::MAX
    }

    /// Starts the cycle that draws `frame`.
    pub fn begin(frame: DisplayFrame) -> (cycle: Self)
        requires
            frame@.len() + 2 <= usize::MAX,
        ensures
            cycle.wf(),
            cycle@ == (RenderCycleView { frame: frame@, step: 0, failures: 0 }),
    {
        RenderCycle { frame, step: 0, failures: 0 }
    }

    /// The action at hand, or `None` when the cycle is over.
    pub fn next_action(&self) -> (action: Option<RenderAction>)
        requires
            self.wf(),
        ensures
            match action {
                Some(a) => action_at(self@.frame, self@.step) == Some(a@),
                None => action_at(self@.frame, self@.step) is None,
            },
    {
        let n: usize = self.frame.items.len();
        if self.step == 0 {
            Some(RenderAction::Clear)
        } else if self.step <= n {
            Some(RenderAction::Draw(self.frame.items[self.step - 1]))
        } else if self.step == n + 1 {
            Some(RenderAction::Flush)
        } else {
            None
        }
    }

    /// Takes in how the action at hand went and moves on to the next one. A
    /// failure is counted and nothing more: the rest of the frame is still
    /// drawn.
    pub fn record(&mut self, ok: bool)
        requires
            old(self).wf(),
        ensures
            final(self).wf(),
            final(self)@ == recorded(old(self)@, ok),
    {
        let n: usize = self.frame.items.len();
        if self.step < n + 2 {
            self.step = self.step + 1;
            if !ok {
                self.failures = self.failures + 1;
            }
        }
    }

    /// Whether every action of the cycle has been performed.
    pub fn is_done(&self) -> (done: bool)
        requires
            self.wf(),
        ensures
            done <==> self@.step == cycle_length(self@.frame),
    {
        self.step == self.frame.items.len() + 2
    }

    /// How many actions have been performed.
    pub fn performed(&self) -> (n: usize)
        ensures
            n == self@.step,
    {
        self.step
    }

    /// How many of the performed actions failed.
    pub fn failures(&self) -> (n: usize)
        ensures
            n == self@.failures,
    {
        self.failures
    }
}

/// Rendering is repeatable: two frames rendered from the same status, device
/// count and leak fact hold the same items in the same order, each with the
/// same characters, position and style.
pub proof fn lemma_render_is_repeatable(
    first: DisplayFrame,
    second: DisplayFrame,
    status: SystemStatus,
    device_count: u32,
    leak: bool,
)
    requires
        first@ == frame_of(status, device_count, leak),
        second@ == frame_of(status, device_count, leak),
    ensures
        first@ == second@,
        first.items@.len() == second.items@.len(),
        forall|i: int| 0 <= i < first.items@.len() ==> first.items@[i]@ == second.items@[i]@,
{
    assert(first@.len() == first.items@.len());
    assert(second@.len() == second.items@.len());
    assert forall|i: int| 0 <= i < first.items@.len() implies first.items@[i]@
        == second.items@[i]@ by {
        assert(first@[i] == first.items@[i]@);
        assert(second@[i] == second.items@[i]@);
    }
}

/// The item lies on the display surface: a text region starts on it and
/// ends no further right than its right edge, a line runs level across it.
pub open spec fn fits_display(item: ItemView) -> bool {
    match item {
        ItemView::Text { text, origin, style } => {
            &&& 0 <= origin.x
            &&& origin.x + CHAR_WIDTH * text.len() <= DISPLAY_WIDTH
            &&& 0 <= origin.y < DISPLAY_HEIGHT
        },
        ItemView::Line { start, end } => {
            &&& 0 <= start.x <= end.x <= DISPLAY_WIDTH
            &&& start.y == end.y
            &&& 0 <= start.y < DISPLAY_HEIGHT
        },
    }
}

/// Whatever the status, the device count and the leak fact, every item of
/// the frame lies on the display surface.
pub proof fn lemma_frame_fits_the_display(status: SystemStatus, device_count: u32, leak: bool)
    ensures
        forall|i: int|
            0 <= i < frame_of(status, device_count, leak).len() ==> fits_display(
                #[trigger] frame_of(status, device_count, leak)[i],
            ),
{
    reveal_strlit("Status: ");
    reveal_strlit("CAN devices: ");
    reveal_strlit("nominal");
    reveal_strlit("warning");
    reveal_strlit("critical");
    reveal_strlit("LEAK DETECTED!");
    let frame = frame_of(status, device_count, leak);
    assert forall|i: int| 0 <= i < frame.len() implies fits_display(#[trigger] frame[i]) by {
        assert(count_text(device_count).len() <= 3);
        assert(status_text(status).len() <= 8);
    }
}

/// For a status derived from the facts, the leak banner is part of the frame
/// exactly when the status is critical, and the frame has one item more
/// then.
pub proof fn lemma_banner_marks_critical(device_count: u32, leak: bool)
    ensures
        frame_of(crate::status::status_of(leak, device_count), device_count, leak).len() == (
        if crate::status::status_of(leak, device_count) == SystemStatus::Critical {
            6int
        } else {
            5int
        }),
        crate::status::status_of(leak, device_count) == SystemStatus::Critical ==> frame_of(
            SystemStatus::Critical,
            device_count,
            leak,
        )[5] == text_at("LEAK DETECTED!"@, 0, banner_y(), TextStyle::Highlight),
{
}

} // verus!
