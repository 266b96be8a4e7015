//! The suspend/restore protocol around the external player: a deep snapshot
//! of the whole state before the terminal is handed off, and the restoration
//! of exactly that state — plus a returned-from-watching notice — afterward.

use vstd::prelude::*;

use crate::anilist::Anime;
use crate::app::App;
use crate::app::AppView;
use crate::gemini::Recommendation;
use crate::text::launch_failed_msg;
use crate::text::launch_failed_message;
use crate::text::watch_msg;
use crate::text::watch_message;

verus! {

/// What became of the external player run, as the caller observed it.
#[derive(Clone, Copy, PartialEq, Eq, Structural, Debug)]
pub enum PlayerOutcome {
    /// The player ran and exited with this code. The code is never fatal for
    /// the navigator and does not change what is restored.
    Exited { code: i32 },
    /// The player could not be started at all; treated as an immediate
    /// return, reported in the status message.
    LaunchFailed,
}

impl AppView {
    /// The state after resuming from the handoff: the snapshot, with only
    /// the status message replaced — by the returned-from-watching notice,
    /// or by the launch-failure notice when the player never started.
    pub open spec fn restored_after_handoff(
        snapshot: AppView,
        title: Seq<char>,
        outcome: PlayerOutcome,
    ) -> AppView {
        match outcome {
            PlayerOutcome::Exited { .. } => snapshot.with_status(watch_msg(title)),
            PlayerOutcome::LaunchFailed => snapshot.with_status(launch_failed_msg()),
        }
    }
}

proof fn lemma_cloned_recs_deep_view(a: Vec<Recommendation>, b: Vec<Recommendation>)
    requires
        a@.len() == b@.len(),
        forall|i: int| 0 <= i < a@.len() ==> cloned::<Recommendation>(a@[i], b@[i]),
    ensures
        a.deep_view() == b.deep_view(),
{
    assert forall|i: int| 0 <= i < a@.len() implies a@[i]@ == b@[i]@ by {
        assert(cloned::<Recommendation>(a@[i], b@[i]));
    }
    assert(a.deep_view() =~= b.deep_view());
}

proof fn lemma_cloned_anime_deep_view(a: Vec<Anime>, b: Vec<Anime>)
    requires
        a@.len() == b@.len(),
        forall|i: int| 0 <= i < a@.len() ==> cloned::<Anime>(a@[i], b@[i]),
    ensures
        a.deep_view() == b.deep_view(),
{
    assert forall|i: int| 0 <= i < a@.len() implies a@[i]@ == b@[i]@ by {
        assert(cloned::<Anime>(a@[i], b@[i]));
    }
    assert(a.deep_view() =~= b.deep_view());
}

proof fn lemma_cloned_strings_deep_view(a: Vec<String>, b: Vec<String>)
    requires
        a@.len() == b@.len(),
        forall|i: int| 0 <= i < a@.len() ==> cloned::<String>(a@[i], b@[i]),
    ensures
        a.deep_view() == b.deep_view(),
{
    assert forall|i: int| 0 <= i < a@.len() implies a@[i]@ == b@[i]@ by {
        assert(cloned::<String>(a@[i], b@[i]));
    }
    assert(a.deep_view() =~= b.deep_view());
}

/// A deep copy of the whole state, taken before the terminal is handed to
/// the external player: the copy's mathematical value is exactly that of the
/// state it was taken from, whatever happens to either afterward.
pub fn snapshot(app: &App) -> (s: App)
    ensures
        s@ == app@,
{
    let gemini_recs = app.gemini_recs.clone();
    let anilist_items = app.anilist_items.clone();
    let genres = app.genres.clone();
    let tags = app.tags.clone();
    proof {
        lemma_cloned_recs_deep_view(app.gemini_recs, gemini_recs);
        lemma_cloned_anime_deep_view(app.anilist_items, anilist_items);
        lemma_cloned_strings_deep_view(app.genres, genres);
        lemma_cloned_strings_deep_view(app.tags, tags);
    }
    let s = App {
        focus: app.focus,
        gemini_index: app.gemini_index,
        anilist_index: app.anilist_index,
        page: app.page,
        gemini_recs,
        anilist_items,
        genres,
        tags,
        has_next_page: app.has_next_page,
        status_message: app.status_message.clone(),
        should_quit: app.should_quit,
    };
    proof {
        assert(s@ =~= app@);
    }
    s
}

/// Puts the snapshot back after the handoff and sets the one intentional
/// deviation from it: the status message announces the return from the
/// player — or its failure to start. Every other field is exactly the
/// snapshot's, whatever the player's exit code was.
pub fn restore_after_handoff(app: &mut App, snapshot: App, title: &str, outcome: PlayerOutcome)
    ensures
        final(app)@ == AppView::restored_after_handoff(snapshot@, title@, outcome),
        snapshot@.wf() ==> final(app).wf(),
{
    let ghost snap = snapshot@;
    *app = snapshot;
    app.status_message = match outcome {
        PlayerOutcome::Exited { .. } => watch_message(title),
        PlayerOutcome::LaunchFailed => launch_failed_message(),
    };
    proof {
        assert(app@ =~= AppView::restored_after_handoff(snap, title@, outcome));
    }
}

} // verus!
