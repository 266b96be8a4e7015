//! The pagination rules for the remote catalog list: when a fetch may be
//! issued, and how its outcome is applied to the state — atomically, so that
//! a failed fetch changes nothing but the status message.

use vstd::prelude::*;

use crate::anilist::Page;
use crate::anilist::PageView;
use crate::app::App;
use crate::app::AppView;
use crate::text::failed_next_page_msg;
use crate::text::failed_next_page_message;
use crate::text::failed_page_msg;
use crate::text::failed_page_message;
use crate::text::loaded_page_msg;
use crate::text::loaded_page_message;
use crate::text::no_more_pages_msg;
use crate::text::no_more_pages_message;
use crate::text::page_msg;
use crate::text::page_message;

verus! {

/// The number of entries every catalog fetch asks for.
pub const PAGE_SIZE: i32 = 10;

/// How a fetch came about: by scrolling past the last item, or by an explicit
/// paging key. The two surface different status messages.
#[derive(Clone, Copy, PartialEq, Eq, Structural, Debug)]
pub enum FetchTrigger {
    Scroll,
    Paging,
}

/// A failed page fetch, as the caller of the catalog hands it back. The
/// navigator reads nothing of the failure but that it happened.
#[derive(Clone, Copy, PartialEq, Eq, Structural, Debug)]
pub struct FetchError;

/// The status message a successful fetch of `target` sets.
pub open spec fn success_msg(trigger: FetchTrigger, target: int) -> Seq<char> {
    match trigger {
        FetchTrigger::Scroll => loaded_page_msg(target),
        FetchTrigger::Paging => page_msg(target),
    }
}

/// The status message a failed fetch sets.
pub open spec fn failure_msg(trigger: FetchTrigger) -> Seq<char> {
    match trigger {
        FetchTrigger::Scroll => failed_next_page_msg(),
        FetchTrigger::Paging => failed_page_msg(),
    }
}

impl AppView {
    /// The state after a successful fetch of page `target`: the catalog list
    /// replaced wholesale, the next-page flag taken from the answer, the
    /// catalog cursor reset to the first item, the page number set to the
    /// target, and a message describing the new page. Nothing else changes.
    pub open spec fn with_page_applied(
        self,
        target: int,
        page: PageView,
        trigger: FetchTrigger,
    ) -> AppView {
        AppView {
            anilist_items: page.media,
            has_next_page: page.has_next_page,
            anilist_index: 0,
            page: target,
            status_message: success_msg(trigger, target),
            ..self
        }
    }

    /// The page a forward fetch would ask for, when one may be issued: there
    /// is a next page and the page number can still be counted up.
    pub open spec fn advance_target(self) -> Option<int> {
        if self.has_next_page && self.page < i32::MAX {
            Some(self.page + 1)
        } else {
            None
        }
    }

    /// The page a backward fetch would ask for, when the navigator is not on
    /// the first page.
    pub open spec fn retreat_target(self) -> Option<int> {
        if self.page > 1 {
            Some(self.page - 1)
        } else {
            None
        }
    }
}

/// Applies the outcome of a fetch of page `target` to the state. On success
/// the catalog list, next-page flag, page number and catalog cursor change
/// together; on failure every field but the status message is left exactly
/// as it was — the page number was never advanced speculatively, so there is
/// nothing to roll back.
pub fn apply_page_result(
    app: &mut App,
    target: i32,
    trigger: FetchTrigger,
    result: Result<Page, FetchError>,
)
    requires
        old(app).wf(),
        target >= 1,
    ensures
        final(app).wf(),
        match result {
            Ok(page) => final(app)@ == old(app)@.with_page_applied(target as int, page@, trigger),
            Err(_) => final(app)@ == old(app)@.with_status(failure_msg(trigger)),
        },
{
    match result {
        Ok(page) => {
            let ghost pv = page@;
            app.anilist_items = page.media;
            app.has_next_page = page.pageInfo.hasNextPage;
            app.anilist_index = 0;
            app.page = target;
            app.status_message = match trigger {
                FetchTrigger::Scroll => loaded_page_message(target),
                FetchTrigger::Paging => page_message(target),
            };
            proof {
                assert(app@ =~= old(app)@.with_page_applied(target as int, pv, trigger));
            }
        },
        Err(_) => {
            app.status_message = match trigger {
                FetchTrigger::Scroll => failed_next_page_message(),
                FetchTrigger::Paging => failed_page_message(),
            };
            proof {
                assert(app@ =~= old(app)@.with_status(failure_msg(trigger)));
            }
        },
    }
}

/// Applies the catalog page fetched once at startup: the entries and the
/// next-page flag are taken over; page one was never left, both cursors are
/// still on the first item, and no status message is set.
pub fn apply_initial_page(app: &mut App, page: Page)
    requires
        old(app).wf(),
        old(app)@.anilist_index == 0,
    ensures
        final(app).wf(),
        final(app)@ == (AppView {
            anilist_items: page@.media,
            has_next_page: page@.has_next_page,
            ..old(app)@
        }),
{
    let ghost pv = page@;
    app.anilist_items = page.media;
    app.has_next_page = page.pageInfo.hasNextPage;
    proof {
        assert(app@ =~= (AppView {
            anilist_items: pv.media,
            has_next_page: pv.has_next_page,
            ..old(app)@
        }));
    }
}

/// Decides a forward page turn: when a next page exists (and the page number
/// can still be counted up), answers the page to fetch and changes nothing;
/// otherwise sets the no-further-pages message and answers nothing.
pub fn advance_if_possible(app: &mut App) -> (target: Option<i32>)
    requires
        old(app).wf(),
    ensures
        final(app).wf(),
        match target {
            Some(t) => old(app)@.advance_target() == Some(t as int) && final(app)@ == old(app)@,
            None => old(app)@.advance_target() is None && final(app)@ == old(app)@.with_status(
                no_more_pages_msg(),
            ),
        },
{
    if app.has_next_page && app.page < i32::MAX {
        Some(app.page + 1)
    } else {
        app.status_message = no_more_pages_message();
        proof {
            assert(app@ =~= old(app)@.with_status(no_more_pages_msg()));
        }
        None
    }
}

/// Decides a backward page turn: when the navigator is past the first page,
/// answers the page to fetch; on the first page it does nothing at all.
pub fn retreat_if_possible(app: &mut App) -> (target: Option<i32>)
    requires
        old(app).wf(),
    ensures
        final(app).wf(),
        final(app)@ == old(app)@,
        match target {
            Some(t) => old(app)@.retreat_target() == Some(t as int),
            None => old(app)@.retreat_target() is None,
        },
{
    if app.page > 1 {
        Some(app.page - 1)
    } else {
        None
    }
}

} // verus!
