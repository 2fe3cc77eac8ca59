//! What the display shows: the operations of each drawing call, with the
//! lock that guards the one display taken around them where the caller does
//! not hold it, and the transient message over the firmware-version line.

use vstd::prelude::*;

verus! {

/// The number of refreshes for which an armed message stays visible.
pub const MESSAGE_DISPLAY_DURATION: u32 = 50;

/// A pixel position on the panel.
#[derive(Clone, Copy, Debug, PartialEq, Eq, Structural)]
pub struct Position {
    pub x: i32,
    pub y: i32,
}

/// A text and the position of its top-left corner.
#[derive(Clone, Copy, Debug, PartialEq, Eq)]
pub struct TextElement<'a> {
    pub text: &'a str,
    pub position: Position,
}

/// One operation on the panel.
#[derive(Clone, Copy, Debug, PartialEq, Eq)]
pub enum DisplayOp<'a> {
    /// Acquire the display lock, waiting for as long as it takes.
    Lock,
    /// Blank the whole frame buffer.
    Clear,
    /// Draw a text into the frame buffer.
    Draw(TextElement<'a>),
    /// Push the frame buffer to the panel.
    Flush,
    /// Release the display lock.
    Unlock,
}

/// The line that is always shown.
pub fn firmware_version() -> (line: &'static str)
    ensures
        line == "FW: WOF V2.0",
{
    "FW: WOF V2.0"
}

/// Where a single text is printed: the top-left corner of the panel.
pub open spec fn origin() -> Position {
    Position { x: 0, y: 0 }
}

/// Where the transient message is drawn.
pub open spec fn message_position() -> Position {
    Position { x: 32, y: 16 }
}

/// Where the firmware-version line is drawn.
pub open spec fn version_position() -> Position {
    Position { x: 0, y: 50 }
}

/// The operations that draw `elements` as one frame: the buffer is blanked,
/// the elements are drawn in order, and the buffer is pushed to the panel.
pub open spec fn frame_ops<'a>(elements: Seq<TextElement<'a>>) -> Seq<DisplayOp<'a>> {
    seq![DisplayOp::Clear] + elements.map_values(|e: TextElement<'a>| DisplayOp::Draw(e))
        + seq![DisplayOp::Flush]
}

/// `ops` carried out under the display lock: the lock is acquired first and
/// released last.
pub open spec fn locked<'a>(ops: Seq<DisplayOp<'a>>) -> Seq<DisplayOp<'a>> {
    seq![DisplayOp::Lock] + ops + seq![DisplayOp::Unlock]
}

/// The operations that blank the panel.
pub open spec fn blank_ops() -> Seq<DisplayOp<'static>> {
    seq![DisplayOp::Clear, DisplayOp::Flush]
}

/// Puts `ops` between the acquisition and the release of the display lock.
fn under_lock<'a>(ops: Vec<DisplayOp<'a>>) -> (all: Vec<DisplayOp<'a>>)
    ensures
        all@ == locked(ops@),
{
    let mut all: Vec<DisplayOp<'a>> = Vec::new();
    all.push(DisplayOp::Lock);
    let n: usize = ops.len();
    let mut i: usize = 0;
    while i < n
        invariant
            n == ops@.len(),
            i <= n,
            all@ =~= seq![DisplayOp::Lock] + ops@.subrange(0, i as int),
        decreases n - i,
    {
        all.push(ops[i]);
        i += 1;
    }
    all.push(DisplayOp::Unlock);
    proof {
        assert(ops@.subrange(0, n as int) =~= ops@);
        assert(all@ =~= locked(ops@));
    }
    all
}

/// The operations that show `text` alone, at the origin, for a caller that
/// holds the display lock.
pub fn print_text<'a>(text: &'a str) -> (ops: Vec<DisplayOp<'a>>)
    ensures
        ops@ == frame_ops(seq![(TextElement { text, position: origin() })]),
{
    let element = TextElement { text, position: Position { x: 0, y: 0 } };
    let ops = vec![DisplayOp::Clear, DisplayOp::Draw(element), DisplayOp::Flush];
    proof {
        assert(ops@ =~= frame_ops(seq![element]));
    }
    ops
}

/// The drawing calls on the one display that the tasks share.
#[derive(Clone, Copy, Debug, Default)]
pub struct DisplayManager;

impl DisplayManager {
    /// The manager of the display.
    pub fn new() -> DisplayManager {
        DisplayManager
    }

    /// The operations that show `text` alone, at the origin, under the
    /// display lock.
    pub fn print_text<'a>(&self, text: &'a str) -> (ops: Vec<DisplayOp<'a>>)
        ensures
            ops@ == locked(frame_ops(seq![(TextElement { text, position: origin() })])),
    {
        under_lock(print_text(text))
    }

    /// The operations that show `text` alone, at the origin, for a caller
    /// that holds the display lock.
    pub fn print_text_unlocked<'a>(&self, text: &'a str) -> (ops: Vec<DisplayOp<'a>>)
        ensures
            ops@ == frame_ops(seq![(TextElement { text, position: origin() })]),
    {
        print_text(text)
    }

    /// The operations that blank the panel, under the display lock.
    pub fn clear(&self) -> (ops: Vec<DisplayOp<'static>>)
        ensures
            ops@ == locked(blank_ops()),
    {
        under_lock(self.clear_unlocked())
    }

    /// The operations that blank the panel, for a caller that holds the
    /// display lock.
    pub fn clear_unlocked(&self) -> (ops: Vec<DisplayOp<'static>>)
        ensures
            ops@ == blank_ops(),
    {
        vec![DisplayOp::Clear, DisplayOp::Flush]
    }

    /// The operations that draw `text` at `position` over what the frame
    /// buffer holds and push the result to the panel, for a caller that
    /// holds the display lock. The buffer is not blanked first, so that
    /// texts can be layered call by call.
    pub fn render_text_at_position<'a>(&self, text: &'a str, position: Position) -> (ops: Vec<
        DisplayOp<'a>,
    >)
        ensures
            ops@ == seq![DisplayOp::Draw(TextElement { text, position }), DisplayOp::Flush],
    {
        vec![DisplayOp::Draw(TextElement { text, position }), DisplayOp::Flush]
    }

    /// The operations that show `elements` together as one frame, for a
    /// caller that holds the display lock.
    pub fn render_multiple_text<'a>(&self, elements: &[TextElement<'a>]) -> (ops: Vec<
        DisplayOp<'a>,
    >)
        ensures
            ops@ == frame_ops(elements@),
    {
        render_multiple_text(elements)
    }
}

/// The operations that show `elements` together as one frame, for a caller
/// that holds the display lock.
pub fn render_multiple_text<'a>(elements: &[TextElement<'a>]) -> (ops: Vec<DisplayOp<'a>>)
    ensures
        ops@ == frame_ops(elements@),
{
    let mut ops: Vec<DisplayOp<'a>> = Vec::new();
    ops.push(DisplayOp::Clear);
    let n: usize = elements.len();
    let mut i: usize = 0;
    while i < n
        invariant
            n == elements@.len(),
            i <= n,
            ops@ =~= seq![DisplayOp::Clear] + elements@.subrange(0, i as int).map_values(
                |e: TextElement<'a>| DisplayOp::Draw(e),
            ),
        decreases n - i,
    {
        ops.push(DisplayOp::Draw(elements[i]));
        i += 1;
    }
    ops.push(DisplayOp::Flush);
    proof {
        assert(elements@.subrange(0, n as int) =~= elements@);
        assert(ops@ =~= frame_ops(elements@));
    }
    ops
}

/// The transient message in the middle of the panel: its text, and for how
/// many more refreshes it is shown.
#[derive(Clone, Copy, Debug, PartialEq, Eq)]
pub struct DisplayMessageState {
    pub text: &'static str,
    pub ticks_remaining: u32,
}

impl DisplayMessageState {
    /// No message is armed.
    pub open spec fn idle() -> DisplayMessageState {
        DisplayMessageState { text: "", ticks_remaining: 0 }
    }

    /// `text` was armed just now.
    pub open spec fn armed(text: &'static str) -> DisplayMessageState {
        DisplayMessageState { text, ticks_remaining: MESSAGE_DISPLAY_DURATION }
    }

    /// The next refresh shows the message.
    pub open spec fn visible(self) -> bool {
        self.text@.len() > 0 && self.ticks_remaining > 0
    }

    /// The state after one refresh: a visible message has one refresh less to
    /// go; an expired or empty one is dropped.
    pub open spec fn refreshed(self) -> DisplayMessageState {
        if self.visible() {
            DisplayMessageState { text: self.text, ticks_remaining: (self.ticks_remaining - 1) as u32 }
        } else {
            Self::idle()
        }
    }

    /// The state after `n` refreshes in a row.
    pub open spec fn after_refreshes(self, n: nat) -> DisplayMessageState
        decreases n,
    {
        if n == 0 {
            self
        } else {
            self.after_refreshes((n - 1) as nat).refreshed()
        }
    }

    /// What the next refresh draws: the message over the version line while
    /// it is visible, the version line alone otherwise.
    pub open spec fn frame(self) -> Seq<TextElement<'static>> {
        let version = TextElement { text: "FW: WOF V2.0", position: version_position() };
        if self.visible() {
            seq![(TextElement { text: self.text, position: message_position() }), version]
        } else {
            seq![version]
        }
    }

    /// The state in which no message is armed.
    pub fn new() -> (state: DisplayMessageState)
        ensures
            state == Self::idle(),
            !state.visible(),
    {
        proof {
            reveal_strlit("");
        }
        DisplayMessageState { text: "", ticks_remaining: 0 }
    }

    /// Arms `text` for the full display duration, replacing any message that
    /// is still showing.
    pub fn arm(&mut self, text: &'static str)
        ensures
            *final(self) == Self::armed(text),
    {
        self.text = text;
        self.ticks_remaining = MESSAGE_DISPLAY_DURATION;
    }

    /// One refresh: returns what to draw and counts the refresh.
    pub fn refresh(&mut self) -> (elements: Vec<TextElement<'static>>)
        ensures
            elements@ == old(self).frame(),
            *final(self) == old(self).refreshed(),
    {
        let version = TextElement { text: firmware_version(), position: Position { x: 0, y: 50 } };
        if !self.text.is_empty() && self.ticks_remaining > 0 {
            let message = TextElement { text: self.text, position: Position { x: 32, y: 16 } };
            self.ticks_remaining = self.ticks_remaining - 1;
            vec![message, version]
        } else {
            self.text = "";
            self.ticks_remaining = 0;
            vec![version]
        }
    }
}

/// A message that is not empty is visible at each of the first
/// `MESSAGE_DISPLAY_DURATION` refreshes after it was armed and at none after
/// them: from then on the version line stands alone until a message is armed
/// again.
pub proof fn lemma_message_visible_for_duration(text: &'static str, n: nat)
    requires
        text@.len() > 0,
    ensures
        DisplayMessageState::armed(text).after_refreshes(n).visible() <==> n
            < MESSAGE_DISPLAY_DURATION,
        n < MESSAGE_DISPLAY_DURATION ==> DisplayMessageState::armed(text).after_refreshes(n).frame()
            == seq![
            (TextElement { text, position: message_position() }),
            (TextElement { text: "FW: WOF V2.0", position: version_position() }),
        ],
        n >= MESSAGE_DISPLAY_DURATION ==> DisplayMessageState::armed(text).after_refreshes(
            n,
        ).frame() == seq![(TextElement { text: "FW: WOF V2.0", position: version_position() })],
{
    lemma_countdown(text, n);
    reveal_strlit("");
}

/// The state `n` refreshes after `text` was armed.
proof fn lemma_countdown(text: &'static str, n: nat)
    requires
        text@.len() > 0,
    ensures
        n <= MESSAGE_DISPLAY_DURATION ==> DisplayMessageState::armed(text).after_refreshes(n)
            == (DisplayMessageState {
            text,
            ticks_remaining: (MESSAGE_DISPLAY_DURATION - n) as u32,
        }),
        n > MESSAGE_DISPLAY_DURATION ==> DisplayMessageState::armed(text).after_refreshes(n)
            == DisplayMessageState::idle(),
    decreases n,
{
    reveal_strlit("");
    if n > 0 {
        lemma_countdown(text, (n - 1) as nat);
    }
}

} // verus!
