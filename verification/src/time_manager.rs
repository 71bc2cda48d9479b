use vstd::prelude::*;
use crate::text::{decimal, push_decimal, push_str, split_lines};
use crate::text_box::{TextBox, TextState, plain_line, join_lines_of, state_wf, handle_event_spec};
use crate::timing::Block;
use crate::ui_event::{KeyModifiers, KeyTrait, UIEvent, spec_ctrl, spec_to_char};

verus! {

/// Whether a block is being timed, and since when.
#[derive(Debug, Clone, Copy, PartialEq, Eq, Structural)]
pub enum TimingMode {
    Timing { start_time: u64 },
    Idle,
}

/// The title a new block gets: `Block ` and the number of blocks logged so far.
pub open spec fn block_title(num_blocks: nat) -> Seq<char> {
    "Block "@ + decimal(num_blocks)
}

/// The text box state that holds `text` with the cursor at the start.
pub open spec fn fresh_text(text: Seq<char>) -> TextState {
    TextState { lines: split_lines(text).map_values(|l: Seq<char>| plain_line(l)), col: 0, row: 0 }
}

/// A log of timed blocks of work: the finished blocks, whether a block is
/// being timed, editors for the next block's title and notes, and which of
/// its components (title, notes, start/stop button) has the focus.
pub struct TimeManager {
    blocks: Vec<Block>,
    mode: TimingMode,
    focused_component: usize,
    title_editor: TextBox,
    body_editor: TextBox,
}

/// The title editor's place in the focus order.
pub const TITLE_COMPONENT: usize = 0;

/// The notes editor's place in the focus order.
pub const NOTES_COMPONENT: usize = 1;

/// The start/stop button's place in the focus order.
pub const BUTTON_COMPONENT: usize = 2;

/// What a time manager holds, as values.
pub struct TimeManagerState {
    pub blocks: Seq<Block>,
    pub mode: TimingMode,
    pub focused: int,
    pub title: TextState,
    pub body: TextState,
}

/// What the start/stop button does at time `now`: when idle, timing starts;
/// when timing, the block is logged with the title and notes typed for it,
/// the editors are reset for the next block, and the manager goes idle.
pub open spec fn toggled(s: TimeManagerState, now: u64, t: TimeManagerState) -> bool {
    match s.mode {
        TimingMode::Idle => t == TimeManagerState { mode: TimingMode::Timing { start_time: now }, ..s },
        TimingMode::Timing { start_time } => {
            &&& t.mode == TimingMode::Idle
            &&& t.focused == s.focused
            &&& t.blocks.len() == s.blocks.len() + 1
            &&& t.blocks.drop_last() == s.blocks
            &&& t.blocks.last().start_time == start_time
            &&& t.blocks.last().end_time == now
            &&& t.blocks.last().title@ == join_lines_of(s.title)
            &&& t.blocks.last().notes@ == join_lines_of(s.body)
            &&& t.title == fresh_text(block_title(t.blocks.len()))
            &&& t.body == fresh_text(Seq::<char>::empty())
        },
    }
}

/// The component that has the focus after an event: a mouse press on one
/// of the components (`clicked`, found from the layout) moves the focus
/// there.
pub open spec fn focus_after(focused: int, ui_event: UIEvent, clicked: Option<usize>) -> int {
    match ui_event {
        UIEvent::MousePress(_) => match clicked {
            Some(i) => if i <= BUTTON_COMPONENT { i as int } else { focused },
            None => focused,
        },
        _ => focused,
    }
}

/// Whether an event reaches the focused component: key presses and resizes
/// do; a mouse press does when it lands on a component.
pub open spec fn event_reaches(ui_event: UIEvent, clicked: Option<usize>) -> bool {
    match ui_event {
        UIEvent::MousePress(_) => clicked matches Some(i) && i <= BUTTON_COMPONENT,
        _ => true,
    }
}

/// The manager after an event went to the component in focus (before the
/// button is looked at).
pub open spec fn forwarded(s: TimeManagerState, ui_event: UIEvent, clicked: Option<usize>) -> TimeManagerState {
    let f = focus_after(s.focused, ui_event, clicked);
    let reaches = event_reaches(ui_event, clicked);
    TimeManagerState {
        focused: f,
        title: if reaches && f == TITLE_COMPONENT {
            handle_event_spec(s.title, ui_event)
        } else {
            s.title
        },
        body: if reaches && f == NOTES_COMPONENT {
            handle_event_spec(s.body, ui_event)
        } else {
            s.body
        },
        ..s
    }
}

/// Starting and then stopping the timer logs exactly one block, from the
/// start time to the stop time, and leaves the earlier blocks as they were.
pub proof fn lemma_start_stop_logs_one_block(
    s: TimeManagerState,
    start: u64,
    running: TimeManagerState,
    stop: u64,
    after: TimeManagerState,
)
    requires
        s.mode == TimingMode::Idle,
        toggled(s, start, running),
        toggled(running, stop, after),
    ensures
        after.mode == TimingMode::Idle,
        after.blocks.len() == s.blocks.len() + 1,
        after.blocks.drop_last() == s.blocks,
        after.blocks.last().start_time == start,
        after.blocks.last().end_time == stop,
        after.blocks.last().title@ == join_lines_of(s.title),
        after.blocks.last().notes@ == join_lines_of(s.body),
{
}

/// What a time manager asks of its caller after an event.
#[derive(Debug, Clone, Copy, PartialEq, Eq, Structural)]
pub enum TimeManagerAction {
    /// Write the logged blocks to the blocks file.
    Save,
    /// Nothing beyond redrawing.
    Redraw,
}

impl TimeManager {
    pub closed spec fn spec_blocks(self) -> Seq<Block> {
        self.blocks@
    }

    pub closed spec fn spec_mode(self) -> TimingMode {
        self.mode
    }

    pub closed spec fn title_state(self) -> TextState {
        self.title_editor.state()
    }

    pub closed spec fn body_state(self) -> TextState {
        self.body_editor.state()
    }

    pub closed spec fn focused(self) -> int {
        self.focused_component as int
    }

    /// Everything the manager holds, as values.
    pub open spec fn view(self) -> TimeManagerState {
        TimeManagerState {
            blocks: self.spec_blocks(),
            mode: self.spec_mode(),
            focused: self.focused(),
            title: self.title_state(),
            body: self.body_state(),
        }
    }

    /// Both editors hold a cursor inside their text, and the focus is on one
    /// of the components.
    pub open spec fn wf(self) -> bool {
        &&& state_wf(self.title_state())
        &&& state_wf(self.body_state())
        &&& 0 <= self.focused() <= BUTTON_COMPONENT
    }

    /// A title editor for the block after `num_blocks` logged ones.
    fn title_editor_for(num_blocks: usize) -> (tb: TextBox)
        ensures
            tb.wf(),
            tb.state() == fresh_text(block_title(num_blocks as nat)),
    {
        let mut title = String::new();
        push_str(&mut title, "Block ");
        push_decimal(&mut title, num_blocks);
        assert(title@ =~= block_title(num_blocks as nat));
        TextBox::new(title)
    }

    /// A time manager over already logged `blocks`, idle, with the title of
    /// the next block filled in and empty notes.
    pub fn new(blocks: Vec<Block>) -> (tm: TimeManager)
        ensures
            tm.wf(),
            tm.spec_blocks() == blocks@,
            tm.spec_mode() == TimingMode::Idle,
            tm.focused() == TITLE_COMPONENT,
            tm.title_state() == fresh_text(block_title(blocks@.len())),
            tm.body_state() == fresh_text(Seq::<char>::empty()),
    {
        let num_blocks = blocks.len();
        let title_editor = TimeManager::title_editor_for(num_blocks);
        let body_editor = TextBox::new(String::new());
        TimeManager { blocks, mode: TimingMode::Idle, focused_component: TITLE_COMPONENT, title_editor, body_editor }
    }

    /// What the start/stop button does at time `now` (see `toggled`).
    pub fn toggle_timing(&mut self, now: u64)
        requires
            old(self).wf(),
        ensures
            final(self).wf(),
            toggled(old(self).view(), now, final(self).view()),
    {
        match self.mode {
            TimingMode::Timing { start_time } => {
                let new_block = Block {
                    start_time,
                    end_time: now,
                    title: self.title_editor.get_text_as_string(),
                    notes: self.body_editor.get_text_as_string(),
                };
                self.blocks.push(new_block);
                let num_blocks = self.blocks.len();
                self.title_editor = TimeManager::title_editor_for(num_blocks);
                self.body_editor = TextBox::new(String::new());
                self.mode = TimingMode::Idle;
                proof {
                    assert(self.blocks@.drop_last() =~= old(self).blocks@);
                }
            },
            TimingMode::Idle => {
                self.mode = TimingMode::Timing { start_time: now };
            },
        }
    }

    /// Handles an input event at time `now`. Ctrl+S asks for the blocks to
    /// be saved, and no other key with Ctrl alone does anything. Any other
    /// event goes to the component in focus (a mouse press first moves the
    /// focus to the component it lands on, `clicked`, and goes nowhere when
    /// it lands on none); then, if the event clicked the start/stop button
    /// (`button_clicked`), the button does its work.
    pub fn handle_ui_event(&mut self, ui_event: UIEvent, clicked: Option<usize>, button_clicked: bool, now: u64) -> (action:
        TimeManagerAction)
        requires
            old(self).wf(),
        ensures
            final(self).wf(),
            match ui_event {
                UIEvent::KeyPress(key, m) if m == spec_ctrl() => {
                    &&& final(self).view() == old(self).view()
                    &&& action == if spec_to_char(key) == Some('s') {
                        TimeManagerAction::Save
                    } else {
                        TimeManagerAction::Redraw
                    }
                },
                _ => {
                    &&& action == TimeManagerAction::Redraw
                    &&& if button_clicked {
                        toggled(forwarded(old(self).view(), ui_event, clicked), now, final(self).view())
                    } else {
                        final(self).view() == forwarded(old(self).view(), ui_event, clicked)
                    }
                },
            },
    {
        if let UIEvent::KeyPress(key, m) = ui_event {
            if m == KeyModifiers::ctrl() {
                if key.to_char() == Some('s') {
                    return TimeManagerAction::Save;
                }
                return TimeManagerAction::Redraw;
            }
        }
        let mut reaches = true;
        if let UIEvent::MousePress(_) = ui_event {
            match clicked {
                Some(i) => {
                    if i <= BUTTON_COMPONENT {
                        self.focused_component = i;
                    } else {
                        reaches = false;
                    }
                },
                None => {
                    reaches = false;
                },
            }
        }
        if reaches {
            if self.focused_component == TITLE_COMPONENT {
                self.title_editor.handle_event(ui_event);
            } else if self.focused_component == NOTES_COMPONENT {
                self.body_editor.handle_event(ui_event);
            }
        }
        if button_clicked {
            self.toggle_timing(now);
        }
        TimeManagerAction::Redraw
    }

    pub fn focused_component(&self) -> (i: usize)
        ensures
            i == self.focused(),
    {
        self.focused_component
    }

    /// The logged blocks.
    pub fn blocks(&self) -> (blocks: &Vec<Block>)
        ensures
            blocks@ == self.spec_blocks(),
    {
        &self.blocks
    }

    pub fn mode(&self) -> (mode: TimingMode)
        ensures
            mode == self.spec_mode(),
    {
        self.mode
    }

    pub fn title_editor(&self) -> (tb: &TextBox)
        ensures
            tb.state() == self.title_state(),
    {
        &self.title_editor
    }

    pub fn body_editor(&self) -> (tb: &TextBox)
        ensures
            tb.state() == self.body_state(),
    {
        &self.body_editor
    }
}

} // verus!
