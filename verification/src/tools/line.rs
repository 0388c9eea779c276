//! The line tool: a drag from press to release makes a straight line.

use vstd::prelude::*;

use crate::math::Vec2D;
use crate::sketch_board::Key;
use crate::sketch_board::KeyEventMsg;
use crate::sketch_board::MouseEventMsg;
use crate::sketch_board::MouseEventType;
use crate::style::Style;
use crate::tools::DrawCommand;
use crate::tools::Drawable;
use crate::tools::Tool;
use crate::tools::ToolUpdateResult;

verus! {

/// A straight line from `start` to the point that lies `direction` further.
/// While the gesture that makes the line has not reported an extent yet,
/// `direction` is `None`, and there is nothing to draw.
#[derive(Clone, Copy, Debug)]
pub struct Line {
    pub start: Vec2D,
    pub direction: Option<Vec2D>,
    pub style: Style,
}

/// The state of a line tool: the line of the gesture in progress, if there is
/// one, and the style that the next gesture will take.
pub struct LineToolState {
    pub line: Option<Line>,
    pub style: Style,
}

/// The line tool.
pub struct LineTool {
    line: Option<Line>,
    style: Style,
}

impl LineToolState {
    /// No gesture is in progress.
    pub open spec fn is_idle(self) -> bool {
        self.line is None
    }

    /// The state without a gesture in progress and with the same style.
    pub open spec fn idle(self) -> LineToolState {
        LineToolState { line: None, style: self.style }
    }

    /// The state after a pointer event, and what the event did.
    ///
    /// A press begins a gesture at the pressed point and in the current
    /// style, whatever went before. A move during a gesture sets the extent
    /// of its line. A release during a gesture ends it: with a zero
    /// displacement the line is dropped, with any other it gets its final
    /// extent and is handed over. Moves and releases outside a gesture, and
    /// events of other kinds, change nothing.
    pub open spec fn on_mouse_event(self, event: MouseEventMsg) -> (
        LineToolState,
        ToolUpdateResult<Line>,
    ) {
        match (event.type_, self.line) {
            (MouseEventType::BeginDrag, _) => (
                LineToolState {
                    line: Some(Line { start: event.pos, direction: None, style: self.style }),
                    style: self.style,
                },
                ToolUpdateResult::Redraw,
            ),
            (MouseEventType::UpdateDrag, Some(line)) => (
                LineToolState {
                    line: Some(Line { direction: Some(event.spec_drag_vector()), ..line }),
                    style: self.style,
                },
                ToolUpdateResult::Redraw,
            ),
            (MouseEventType::EndDrag, Some(line)) => if event.pos.is_zero() {
                (self.idle(), ToolUpdateResult::Redraw)
            } else {
                (
                    self.idle(),
                    ToolUpdateResult::Commit(
                        Box::new(Line { direction: Some(event.spec_drag_vector()), ..line }),
                    ),
                )
            },
            _ => (self, ToolUpdateResult::Unmodified),
        }
    }

    /// The state after a key press, and what the key did: Escape during a
    /// gesture drops its line, and nothing else changes anything.
    pub open spec fn on_key_event(self, event: KeyEventMsg) -> (
        LineToolState,
        ToolUpdateResult<Line>,
    ) {
        if event.key == Key::spec_escape() && self.line is Some {
            (self.idle(), ToolUpdateResult::Redraw)
        } else {
            (self, ToolUpdateResult::Unmodified)
        }
    }

    /// The state after a change of style: the next gesture will take the new
    /// style, and the line of a gesture in progress keeps its own.
    pub open spec fn on_style_event(self, style: Style) -> (LineToolState, ToolUpdateResult<Line>) {
        (LineToolState { line: self.line, style }, ToolUpdateResult::Unmodified)
    }
}

impl View for LineTool {
    type V = LineToolState;

    closed spec fn view(&self) -> LineToolState {
        LineToolState { line: self.line, style: self.style }
    }
}

impl Drawable for Line {
    open spec fn draw_commands(&self) -> Seq<DrawCommand> {
        match self.direction {
            None => Seq::empty(),
            Some(direction) => seq![
                DrawCommand::Save,
                DrawCommand::SetLineWidth(self.style.size),
                DrawCommand::SetSourceRgba(self.style.color),
                DrawCommand::MoveTo(self.start),
                DrawCommand::RelLineTo(direction),
                DrawCommand::Stroke,
                DrawCommand::Restore,
            ],
        }
    }

    fn draw(&self) -> (commands: Vec<DrawCommand>) {
        let mut commands: Vec<DrawCommand> = Vec::new();
        let direction = match self.direction {
            Some(d) => d,
            None => {
                return commands;
            },
        };
        commands.push(DrawCommand::Save);
        commands.push(DrawCommand::SetLineWidth(self.style.size));
        commands.push(DrawCommand::SetSourceRgba(self.style.color));
        commands.push(DrawCommand::MoveTo(self.start));
        commands.push(DrawCommand::RelLineTo(direction));
        commands.push(DrawCommand::Stroke);
        commands.push(DrawCommand::Restore);
        assert(commands@ =~= self.draw_commands());
        commands
    }

    fn clone_box(&self) -> (copy: Box<Self>) {
        Box::new(*self)
    }
}

impl LineTool {
    /// An idle tool with the given style.
    pub fn new(style: Style) -> (tool: Self)
        ensures
            tool@ == (LineToolState { line: None, style }),
    {
        LineTool { line: None, style }
    }
}

impl Default for LineTool {
    /// An idle tool with the default style.
    fn default() -> (tool: Self)
        ensures
            tool@ == (LineToolState { line: None, style: Style::default_style() }),
    {
        LineTool { line: None, style: Style::default() }
    }
}

impl Tool for LineTool {
    type Drawing = Line;

    open spec fn preview(&self) -> Option<Line> {
        self@.line
    }

    fn handle_mouse_event(&mut self, event: MouseEventMsg) -> (result: ToolUpdateResult<Line>)
        ensures
            (final(self)@, result) == old(self)@.on_mouse_event(event),
    {
        match event.type_ {
            MouseEventType::BeginDrag => {
                self.line = Some(Line { start: event.pos, direction: None, style: self.style });
                ToolUpdateResult::Redraw
            },
            MouseEventType::EndDrag => {
                match self.line {
                    Some(line) => {
                        self.line = None;
                        if event.pos == Vec2D::zero() {
                            ToolUpdateResult::Redraw
                        } else {
                            let finished = Line {
                                start: line.start,
                                direction: Some(event.drag_vector()),
                                style: line.style,
                            };
                            ToolUpdateResult::Commit(finished.clone_box())
                        }
                    },
                    None => ToolUpdateResult::Unmodified,
                }
            },
            MouseEventType::UpdateDrag => {
                match self.line {
                    Some(line) => {
                        self.line = Some(
                            Line {
                                start: line.start,
                                direction: Some(event.drag_vector()),
                                style: line.style,
                            },
                        );
                        ToolUpdateResult::Redraw
                    },
                    None => ToolUpdateResult::Unmodified,
                }
            },
            _ => ToolUpdateResult::Unmodified,
        }
    }

    fn handle_key_event(&mut self, event: KeyEventMsg) -> (result: ToolUpdateResult<Line>)
        ensures
            (final(self)@, result) == old(self)@.on_key_event(event),
    {
        if event.key == Key::escape() && self.line.is_some() {
            self.line = None;
            ToolUpdateResult::Redraw
        } else {
            ToolUpdateResult::Unmodified
        }
    }

    fn handle_style_event(&mut self, style: Style) -> (result: ToolUpdateResult<Line>)
        ensures
            (final(self)@, result) == old(self)@.on_style_event(style),
    {
        self.style = style;
        ToolUpdateResult::Unmodified
    }

    fn get_drawable(&self) -> (drawable: Option<&Line>)
        ensures
            match drawable {
                Some(line) => self@.line == Some(*line),
                None => self@.line is None,
            },
    {
        match &self.line {
            Some(d) => Some(d),
            None => None,
        }
    }
}

/// A whole gesture. A press, a move, a change of style and a release with a
/// displacement other than zero hand over one line: it starts at the pressed
/// point, extends by what the release reported (the snapped displacement if
/// Shift was held then), and has the style that the tool had at the press.
/// On the way the preview follows the move, and the change of style reaches
/// only the tool, which is idle again at the end.
pub proof fn lemma_gesture_commits_line(
    pre: LineToolState,
    press: MouseEventMsg,
    moved: MouseEventMsg,
    style: Style,
    release: MouseEventMsg,
)
    requires
        press.type_ == MouseEventType::BeginDrag,
        moved.type_ == MouseEventType::UpdateDrag,
        release.type_ == MouseEventType::EndDrag,
        !release.pos.is_zero(),
    ensures
        ({
            let (pressed, r1) = pre.on_mouse_event(press);
            let (dragged, r2) = pressed.on_mouse_event(moved);
            let (restyled, r3) = dragged.on_style_event(style);
            let (released, r4) = restyled.on_mouse_event(release);
            let line = Line { start: press.pos, direction: None, style: pre.style };
            &&& r1 == ToolUpdateResult::<Line>::Redraw
            &&& pressed.line == Some(line)
            &&& r2 == ToolUpdateResult::<Line>::Redraw
            &&& dragged.line == Some(Line { direction: Some(moved.spec_drag_vector()), ..line })
            &&& r3 == ToolUpdateResult::<Line>::Unmodified
            &&& restyled.line == dragged.line
            &&& r4 == ToolUpdateResult::Commit(
                Box::new(Line { direction: Some(release.spec_drag_vector()), ..line }),
            )
            &&& released == (LineToolState { line: None, style })
        }),
{
}

/// While Shift is held a drag event reports the snapped displacement,
/// otherwise the displacement itself.
pub proof fn lemma_shift_selects_snapped(event: MouseEventMsg)
    ensures
        event.modifier.shift_held() ==> event.spec_drag_vector() == event.snapped_pos,
        !event.modifier.shift_held() ==> event.spec_drag_vector() == event.pos,
{
}

/// A release without movement cancels the gesture: the preview goes, nothing
/// is handed over, and the tool is idle with its style unchanged.
pub proof fn lemma_release_without_movement_cancels(pre: LineToolState, release: MouseEventMsg)
    requires
        pre.line is Some,
        release.type_ == MouseEventType::EndDrag,
        release.pos.is_zero(),
    ensures
        pre.on_mouse_event(release) == (pre.idle(), ToolUpdateResult::<Line>::Redraw),
{
}

/// Escape cancels a gesture in progress, and does nothing to an idle tool.
pub proof fn lemma_escape_cancels(pre: LineToolState)
    ensures
        ({
            let (post, result) = pre.on_key_event(KeyEventMsg { key: Key::spec_escape() });
            &&& post == pre.idle()
            &&& pre.line is Some ==> result == ToolUpdateResult::<Line>::Redraw
            &&& pre.line is None ==> result == ToolUpdateResult::<Line>::Unmodified
        }),
{
}

/// An idle tool answers nothing but a press: moves, releases, other pointer
/// events and keys leave it as it is.
pub proof fn lemma_idle_ignores(pre: LineToolState, pointer: MouseEventMsg, key: KeyEventMsg)
    requires
        pre.is_idle(),
        pointer.type_ != MouseEventType::BeginDrag,
    ensures
        pre.on_mouse_event(pointer) == (pre, ToolUpdateResult::<Line>::Unmodified),
        pre.on_key_event(key) == (pre, ToolUpdateResult::<Line>::Unmodified),
{
}

/// A line is handed over only by a release during a gesture with a
/// displacement other than zero. The line then has an extent, so there is
/// something to draw, and the tool is idle.
pub proof fn lemma_commit_only_on_release(pre: LineToolState, event: MouseEventMsg)
    ensures
        ({
            let (post, result) = pre.on_mouse_event(event);
            &&& result is Commit <==> event.type_ == MouseEventType::EndDrag && pre.line is Some
                && !event.pos.is_zero()
            &&& result matches ToolUpdateResult::Commit(line) ==> {
                &&& line.direction is Some
                &&& line.start == pre.line->Some_0.start
                &&& line.style == pre.line->Some_0.style
                &&& line.draw_commands().len() == 7
                &&& post.is_idle()
            }
        }),
{
}

/// No event but a press changes where the line of a gesture starts or the
/// style it is drawn in, as long as the gesture goes on.
pub proof fn lemma_start_and_style_fixed(
    pre: LineToolState,
    pointer: MouseEventMsg,
    key: KeyEventMsg,
    style: Style,
)
    requires
        pre.line is Some,
        pointer.type_ != MouseEventType::BeginDrag,
    ensures
        ({
            let before = pre.line->Some_0;
            let after_pointer = pre.on_mouse_event(pointer).0.line;
            let after_key = pre.on_key_event(key).0.line;
            let after_style = pre.on_style_event(style).0.line;
            &&& after_pointer matches Some(line) ==> line.start == before.start && line.style
                == before.style
            &&& after_key matches Some(line) ==> line == before
            &&& after_style == pre.line
        }),
{
}

} // verus!
