//! The navigator's general laws, each proved over the same spec functions
//! that the executable functions' contracts use: cursors stay in bounds
//! under every command sequence, a failed fetch changes nothing but the
//! status message, focus switching is an involution that leaves the cursors
//! alone, a status message lives exactly one rendered frame, and the handoff
//! restores the snapshot whatever the player's exit code.

use vstd::prelude::*;

use crate::app::AppView;
use crate::app::Focus;
use crate::dispatch::Command;
use crate::dispatch::Key;
use crate::dispatch::key_command;
use crate::dispatch::spec_dispatch;
use crate::dispatch::spec_frame;
use crate::anilist::PageView;
use crate::pagination::FetchError;
use crate::pagination::FetchTrigger;
use crate::pagination::failure_msg;
use crate::pagination::success_msg;
use crate::session::PlayerOutcome;
use crate::text::empty_selection_msg;
use crate::text::lemma_messages_nonempty;
use crate::text::no_more_pages_msg;
use crate::text::watch_msg;

verus! {

/// One dispatcher step keeps the state invariant: cursors in bounds, page
/// number positive.
pub proof fn lemma_dispatch_preserves_wf(v: AppView, c: Command)
    requires
        v.wf(),
    ensures
        spec_dispatch(v, c).0.wf(),
{
}

/// The state after a sequence of commands, each applied through the
/// dispatcher's own state change; whatever blocking work the dispatcher
/// asks for is not performed here.
pub open spec fn apply_commands(v: AppView, cmds: Seq<Command>) -> AppView
    decreases cmds.len(),
{
    if cmds.len() == 0 {
        v
    } else {
        apply_commands(spec_dispatch(v, cmds[0]).0, cmds.subrange(1, cmds.len() as int))
    }
}

/// Cursor bound: under every sequence of commands — movement included — each
/// cursor indexes into its list whenever the list is non-empty and stands on
/// zero whenever the list is empty.
pub proof fn lemma_cursor_bound(v: AppView, cmds: Seq<Command>)
    requires
        v.wf(),
    ensures
        apply_commands(v, cmds).wf(),
        ({
            let w = apply_commands(v, cmds);
            &&& w.gemini_recs.len() > 0 ==> 0 <= w.gemini_index < w.gemini_recs.len()
            &&& w.gemini_recs.len() == 0 ==> w.gemini_index == 0
            &&& w.anilist_items.len() > 0 ==> 0 <= w.anilist_index < w.anilist_items.len()
            &&& w.anilist_items.len() == 0 ==> w.anilist_index == 0
        }),
    decreases cmds.len(),
{
    if cmds.len() > 0 {
        lemma_dispatch_preserves_wf(v, cmds[0]);
        lemma_cursor_bound(spec_dispatch(v, cmds[0]).0, cmds.subrange(1, cmds.len() as int));
    }
}

/// Atomic page update: a failed fetch leaves the catalog items, the page
/// number and the next-page flag — and both cursors and the focus — exactly
/// as they were; only the status message changes.
pub proof fn lemma_failed_fetch_atomic(v: AppView, trigger: FetchTrigger)
    ensures
        ({
            let after = v.with_status(failure_msg(trigger));
            &&& after.anilist_items == v.anilist_items
            &&& after.page == v.page
            &&& after.has_next_page == v.has_next_page
            &&& after.anilist_index == v.anilist_index
            &&& after.gemini_index == v.gemini_index
            &&& after.focus == v.focus
            &&& after.gemini_recs == v.gemini_recs
            &&& after.status_message == failure_msg(trigger)
        }),
{
}

/// Focus independence: switching focus twice gives back the very state it
/// started from; one switch moves neither cursor.
pub proof fn lemma_focus_independence(v: AppView)
    ensures
        v.with_focus_flipped().with_focus_flipped() == v,
        v.with_focus_flipped().gemini_index == v.gemini_index,
        v.with_focus_flipped().anilist_index == v.anilist_index,
{
    assert(v.with_focus_flipped().with_focus_flipped() =~= v);
}

/// Whether dispatching `c` against `v` sets a status message of its own.
pub open spec fn command_sets_status(v: AppView, c: Command) -> bool {
    match c {
        Command::MoveDown => v.focus == Focus::AniList && v.anilist_index + 1
            >= v.anilist_items.len() && v.advance_target() is None,
        Command::PageForward => v.focus == Focus::AniList && v.advance_target() is None,
        Command::Activate => v.selection() is Err,
        _ => false,
    }
}

/// Whether the frame's input makes the dispatcher set a status message.
pub open spec fn frame_sets_status(v: AppView, input: Option<Key>) -> bool {
    match input {
        Some(k) => match key_command(k) {
            Some(c) => command_sets_status(v.with_status(Seq::empty()), c),
            None => false,
        },
        None => false,
    }
}

/// Status lifetime: a frame begins by rendering the status message the
/// previous frame left, so that message is observed once; the frame's own
/// result never depends on it; and unless the frame's input sets a fresh
/// message, the frame ends with the status empty — so the message after the
/// next render is gone. A freshly set message is never empty.
pub proof fn lemma_status_lifetime(v: AppView, m: Seq<char>, input: Option<Key>)
    ensures
        v.with_status(m).status_message == m,
        spec_frame(v.with_status(m), input) == spec_frame(v, input),
        !frame_sets_status(v, input) ==> spec_frame(v, input).0.status_message
            == Seq::<char>::empty(),
        frame_sets_status(v, input) ==> spec_frame(v, input).0.status_message
            == no_more_pages_msg() || spec_frame(v, input).0.status_message
            == empty_selection_msg(),
        frame_sets_status(v, input) ==> spec_frame(v, input).0.status_message.len() > 0,
{
    assert(v.with_status(m).with_status(Seq::empty()) =~= v.with_status(Seq::empty()));
    lemma_messages_nonempty(0, Seq::empty());
}

/// The state after the fetch a dispatcher-requested action came back: on
/// success the page is applied wholesale, on failure only the status
/// message changes.
pub open spec fn apply_fetch_outcome(
    v: AppView,
    target: int,
    trigger: FetchTrigger,
    outcome: Result<PageView, FetchError>,
) -> AppView {
    match outcome {
        Ok(p) => v.with_page_applied(target, p, trigger),
        Err(_) => v.with_status(failure_msg(trigger)),
    }
}

/// A frame whose action was a fetch always ends with a status message: the
/// exact success or failure message of that fetch — never the message from
/// before the frame, and never the empty one. So such a frame counts as a
/// status-setting event of its own.
pub proof fn lemma_fetch_frame_status(
    v: AppView,
    target: int,
    trigger: FetchTrigger,
    outcome: Result<PageView, FetchError>,
)
    requires
        target >= 1,
    ensures
        ({
            let w = apply_fetch_outcome(v, target, trigger, outcome);
            &&& w.status_message == match outcome {
                Ok(_) => success_msg(trigger, target),
                Err(_) => failure_msg(trigger),
            }
            &&& w.status_message.len() > 0
        }),
{
    lemma_messages_nonempty(target, Seq::empty());
}

/// Termination is latched: the quit command sets the flag, no command —
/// and no page application, status change or handoff restoration from a
/// snapshot with the flag — ever unsets it.
pub proof fn lemma_quit_latched(
    v: AppView,
    c: Command,
    m: Seq<char>,
    target: int,
    trigger: FetchTrigger,
    page: PageView,
    title: Seq<char>,
    outcome: PlayerOutcome,
)
    ensures
        spec_dispatch(v, c).0.should_quit == (v.should_quit || c == Command::Quit),
        v.with_status(m).should_quit == v.should_quit,
        v.with_page_applied(target, page, trigger).should_quit == v.should_quit,
        AppView::restored_after_handoff(v, title, outcome).should_quit == v.should_quit,
{
}

/// Handoff restores state: resuming after the player exited — with whatever
/// code — yields exactly the snapshot, except that the status message
/// announces the return.
pub proof fn lemma_handoff_restores_state(s: AppView, title: Seq<char>, code: i32)
    ensures
        ({
            let r = AppView::restored_after_handoff(s, title, PlayerOutcome::Exited { code });
            &&& r == s.with_status(watch_msg(title))
            &&& r.focus == s.focus
            &&& r.gemini_index == s.gemini_index
            &&& r.anilist_index == s.anilist_index
            &&& r.page == s.page
            &&& r.gemini_recs == s.gemini_recs
            &&& r.anilist_items == s.anilist_items
            &&& r.genres == s.genres
            &&& r.tags == s.tags
            &&& r.has_next_page == s.has_next_page
            &&& r.should_quit == s.should_quit
            &&& r.status_message == watch_msg(title)
        }),
{
}

} // verus!
