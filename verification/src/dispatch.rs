//! The event-loop dispatcher: the fixed key table, the command set, and the
//! per-frame step that clears the one-frame status message and applies a
//! command to the state, handing back whatever blocking work — a page fetch
//! or a player handoff — the caller must now perform.

use vstd::prelude::*;

use crate::app::App;
use crate::app::AppView;
use crate::app::Focus;
use crate::pagination::FetchTrigger;
use crate::text::empty_selection_msg;
use crate::text::empty_selection_message;
use crate::text::no_more_pages_msg;
use crate::text::no_more_pages_message;

verus! {

/// A raw key, as the terminal reports it. Keys outside this set never reach
/// the dispatcher: they map to no command.
#[derive(Clone, Copy, PartialEq, Eq, Structural, Debug)]
pub enum Key {
    Char(char),
    Up,
    Down,
    Left,
    Right,
    Tab,
    Enter,
    Esc,
}

/// A navigator command, the dispatcher's whole vocabulary.
#[derive(Clone, Copy, PartialEq, Eq, Structural, Debug)]
pub enum Command {
    Quit,
    SwitchFocus,
    MoveUp,
    MoveDown,
    PageForward,
    PageBackward,
    Activate,
}

/// The fixed key table: `q` and Escape quit, Tab switches focus, the arrow
/// keys move and page, Enter activates; every other key is ignored.
pub open spec fn key_command(k: Key) -> Option<Command> {
    match k {
        Key::Char(c) => if c == 'q' {
            Some(Command::Quit)
        } else {
            None
        },
        Key::Esc => Some(Command::Quit),
        Key::Tab => Some(Command::SwitchFocus),
        Key::Up => Some(Command::MoveUp),
        Key::Down => Some(Command::MoveDown),
        Key::Right => Some(Command::PageForward),
        Key::Left => Some(Command::PageBackward),
        Key::Enter => Some(Command::Activate),
    }
}

/// Maps a raw key through the fixed key table.
pub fn map_key(k: Key) -> (c: Option<Command>)
    ensures
        c == key_command(k),
{
    match k {
        Key::Char(ch) => if ch == 'q' {
            Some(Command::Quit)
        } else {
            None
        },
        Key::Esc => Some(Command::Quit),
        Key::Tab => Some(Command::SwitchFocus),
        Key::Up => Some(Command::MoveUp),
        Key::Down => Some(Command::MoveDown),
        Key::Right => Some(Command::PageForward),
        Key::Left => Some(Command::PageBackward),
        Key::Enter => Some(Command::Activate),
    }
}

/// Blocking work the dispatcher asks its caller to perform: fetch a catalog
/// page, or suspend the terminal and run the player on a title. The
/// dispatcher itself never blocks.
pub enum Action {
    Fetch { target: i32, trigger: FetchTrigger },
    Handoff { title: String },
}

/// The mathematical value of an `Action`.
pub enum ActionView {
    Fetch { target: int, trigger: FetchTrigger },
    Handoff { title: Seq<char> },
}

impl View for Action {
    type V = ActionView;

    open spec fn view(&self) -> ActionView {
        match self {
            Action::Fetch { target, trigger } => ActionView::Fetch {
                target: *target as int,
                trigger: *trigger,
            },
            Action::Handoff { title } => ActionView::Handoff { title: title@ },
        }
    }
}

impl DeepView for Action {
    type V = ActionView;

    open spec fn deep_view(&self) -> ActionView {
        self.view()
    }
}

/// What one command does to the state, and what work it hands back.
///
/// Movement keys act on the focused list; a move down at the end of the
/// catalog list becomes a forward fetch when a next page exists, and the
/// no-further-pages message when none does. Paging keys act only while the
/// catalog list is focused. Activation yields a handoff for the selected
/// title, or the empty-selection message when the focused list holds
/// nothing. A fetch or handoff leaves the state untouched here: it is
/// applied when its outcome is known.
pub open spec fn spec_dispatch(v: AppView, cmd: Command) -> (AppView, Option<ActionView>) {
    match cmd {
        Command::Quit => (AppView { should_quit: true, ..v }, None),
        Command::SwitchFocus => (v.with_focus_flipped(), None),
        Command::MoveUp => (v.moved_up(), None),
        Command::MoveDown => {
            if v.focus == Focus::AniList && v.anilist_index + 1 >= v.anilist_items.len() {
                match v.advance_target() {
                    Some(t) => (
                        v,
                        Some(ActionView::Fetch { target: t, trigger: FetchTrigger::Scroll }),
                    ),
                    None => (v.with_status(no_more_pages_msg()), None),
                }
            } else {
                (v.moved_down(), None)
            }
        },
        Command::PageForward => {
            if v.focus == Focus::AniList {
                match v.advance_target() {
                    Some(t) => (
                        v,
                        Some(ActionView::Fetch { target: t, trigger: FetchTrigger::Paging }),
                    ),
                    None => (v.with_status(no_more_pages_msg()), None),
                }
            } else {
                (v, None)
            }
        },
        Command::PageBackward => {
            if v.focus == Focus::AniList {
                match v.retreat_target() {
                    Some(t) => (
                        v,
                        Some(ActionView::Fetch { target: t, trigger: FetchTrigger::Paging }),
                    ),
                    None => (v, None),
                }
            } else {
                (v, None)
            }
        },
        Command::Activate => {
            match v.selection() {
                Ok(title) => (v, Some(ActionView::Handoff { title })),
                Err(_) => (v.with_status(empty_selection_msg()), None),
            }
        },
    }
}

/// Applies one command to the state and answers the blocking work, if any,
/// that the caller must perform next — exactly as `spec_dispatch` lays out.
pub fn dispatch(app: &mut App, cmd: Command) -> (act: Option<Action>)
    requires
        old(app).wf(),
    ensures
        final(app).wf(),
        final(app)@ == spec_dispatch(old(app)@, cmd).0,
        act.deep_view() == spec_dispatch(old(app)@, cmd).1,
{
    match cmd {
        Command::Quit => {
            app.should_quit = true;
            proof {
                assert(app@ =~= spec_dispatch(old(app)@, cmd).0);
            }
            None
        },
        Command::SwitchFocus => {
            app.switch_focus();
            None
        },
        Command::MoveUp => {
            app.move_up();
            None
        },
        Command::MoveDown => {
            let at_end = app.anilist_items.len() == 0 || app.anilist_index
                >= app.anilist_items.len() - 1;
            if app.focus == Focus::AniList && at_end {
                if app.has_next_page && app.page < i32::MAX {
                    Some(Action::Fetch { target: app.page + 1, trigger: FetchTrigger::Scroll })
                } else {
                    app.status_message = no_more_pages_message();
                    proof {
                        assert(app@ =~= old(app)@.with_status(no_more_pages_msg()));
                    }
                    None
                }
            } else {
                app.move_down();
                None
            }
        },
        Command::PageForward => {
            if app.focus == Focus::AniList {
                if app.has_next_page && app.page < i32::MAX {
                    Some(Action::Fetch { target: app.page + 1, trigger: FetchTrigger::Paging })
                } else {
                    app.status_message = no_more_pages_message();
                    proof {
                        assert(app@ =~= old(app)@.with_status(no_more_pages_msg()));
                    }
                    None
                }
            } else {
                None
            }
        },
        Command::PageBackward => {
            if app.focus == Focus::AniList && app.page > 1 {
                Some(Action::Fetch { target: app.page - 1, trigger: FetchTrigger::Paging })
            } else {
                None
            }
        },
        Command::Activate => {
            match app.current_selection() {
                Ok(title) => Some(Action::Handoff { title }),
                Err(_) => {
                    app.status_message = empty_selection_message();
                    proof {
                        assert(app@ =~= old(app)@.with_status(empty_selection_msg()));
                    }
                    None
                },
            }
        },
    }
}

/// One frame's worth of state change, after the render: the status message
/// shown during the render is cleared, and the frame's input — if any key
/// arrived and it maps to a command — is dispatched against the cleared
/// state.
pub open spec fn spec_frame(v: AppView, input: Option<Key>) -> (AppView, Option<ActionView>) {
    let cleared = v.with_status(Seq::empty());
    match input {
        Some(k) => match key_command(k) {
            Some(c) => spec_dispatch(cleared, c),
            None => (cleared, None),
        },
        None => (cleared, None),
    }
}

/// Runs one frame against the state: clears the just-rendered status
/// message, then dispatches the frame's input. The caller renders before
/// calling this, and performs the answered action — fetch or handoff —
/// right after.
pub fn frame(app: &mut App, input: Option<Key>) -> (act: Option<Action>)
    requires
        old(app).wf(),
    ensures
        final(app).wf(),
        final(app)@ == spec_frame(old(app)@, input).0,
        act.deep_view() == spec_frame(old(app)@, input).1,
{
    app.clear_status();
    match input {
        Some(k) => match map_key(k) {
            Some(c) => dispatch(app, c),
            None => None,
        },
        None => None,
    }
}

} // verus!
