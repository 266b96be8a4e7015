//! The navigator's state: the two lists, their cursors, the focus, the paging
//! position and the transient status message, together with the pure
//! selection-model operations on it.

use vstd::prelude::*;

use crate::anilist::Anime;
use crate::anilist::AnimeView;
use crate::gemini::Recommendation;
use crate::gemini::RecommendationView;

verus! {

/// Which of the two lists receives navigation input.
#[derive(Clone, Copy, PartialEq, Eq, Structural, Debug)]
pub enum Focus {
    /// The fixed list of suggested picks.
    Gemini,
    /// The paginated remote catalog list.
    AniList,
}

/// The other focus.
pub open spec fn flip_focus(f: Focus) -> Focus {
    match f {
        Focus::Gemini => Focus::AniList,
        Focus::AniList => Focus::Gemini,
    }
}

/// The one mutable aggregate of the navigator, owned by the event loop for
/// the life of the process.
pub struct App {
    pub focus: Focus,
    pub gemini_index: usize,
    pub anilist_index: usize,
    pub page: i32,
    pub gemini_recs: Vec<Recommendation>,
    pub anilist_items: Vec<Anime>,
    pub genres: Vec<String>,
    pub tags: Vec<String>,
    pub has_next_page: bool,
    pub status_message: String,
    pub should_quit: bool,
}

/// The mathematical value of an `App`: every list as a sequence of views,
/// every string as a character sequence.
#[verifier::ext_equal]
pub struct AppView {
    pub focus: Focus,
    pub gemini_index: int,
    pub anilist_index: int,
    pub page: int,
    pub gemini_recs: Seq<RecommendationView>,
    pub anilist_items: Seq<AnimeView>,
    pub genres: Seq<Seq<char>>,
    pub tags: Seq<Seq<char>>,
    pub has_next_page: bool,
    pub status_message: Seq<char>,
    pub should_quit: bool,
}

impl View for App {
    type V = AppView;

    open spec fn view(&self) -> AppView {
        AppView {
            focus: self.focus,
            gemini_index: self.gemini_index as int,
            anilist_index: self.anilist_index as int,
            page: self.page as int,
            gemini_recs: self.gemini_recs.deep_view(),
            anilist_items: self.anilist_items.deep_view(),
            genres: self.genres.deep_view(),
            tags: self.tags.deep_view(),
            has_next_page: self.has_next_page,
            status_message: self.status_message@,
            should_quit: self.should_quit,
        }
    }
}

impl AppView {
    /// A cursor stands on an item whenever its list has one, and on zero
    /// otherwise; the page number is positive.
    pub open spec fn wf(self) -> bool {
        &&& if self.gemini_recs.len() > 0 {
            0 <= self.gemini_index < self.gemini_recs.len()
        } else {
            self.gemini_index == 0
        }
        &&& if self.anilist_items.len() > 0 {
            0 <= self.anilist_index < self.anilist_items.len()
        } else {
            self.anilist_index == 0
        }
        &&& 1 <= self.page <= i32::MAX
    }

    /// The state the navigator starts in, given the suggested picks.
    pub open spec fn initial(recs: Seq<RecommendationView>) -> AppView {
        AppView {
            focus: Focus::Gemini,
            gemini_index: 0,
            anilist_index: 0,
            page: 1,
            gemini_recs: recs,
            anilist_items: Seq::empty(),
            genres: Seq::empty(),
            tags: Seq::empty(),
            has_next_page: false,
            status_message: Seq::empty(),
            should_quit: false,
        }
    }

    /// The same state with the other focus and nothing else changed.
    pub open spec fn with_focus_flipped(self) -> AppView {
        AppView { focus: flip_focus(self.focus), ..self }
    }

    /// The same state with the given status message and nothing else changed.
    pub open spec fn with_status(self, m: Seq<char>) -> AppView {
        AppView { status_message: m, ..self }
    }

    /// The cursor of the focused list.
    pub open spec fn active_cursor(self) -> int {
        match self.focus {
            Focus::Gemini => self.gemini_index,
            Focus::AniList => self.anilist_index,
        }
    }

    /// The length of the focused list.
    pub open spec fn active_len(self) -> int {
        match self.focus {
            Focus::Gemini => self.gemini_recs.len() as int,
            Focus::AniList => self.anilist_items.len() as int,
        }
    }

    /// The state after a move-up: the active cursor one step lower, stopped
    /// at zero.
    pub open spec fn moved_up(self) -> AppView {
        if self.active_cursor() > 0 {
            match self.focus {
                Focus::Gemini => AppView { gemini_index: self.gemini_index - 1, ..self },
                Focus::AniList => AppView { anilist_index: self.anilist_index - 1, ..self },
            }
        } else {
            self
        }
    }

    /// The state after a plain move-down: the active cursor one step higher,
    /// stopped at the last item. Paging past the end is not part of this
    /// operation: the dispatcher intercepts that case.
    pub open spec fn moved_down(self) -> AppView {
        if self.active_cursor() + 1 < self.active_len() {
            match self.focus {
                Focus::Gemini => AppView { gemini_index: self.gemini_index + 1, ..self },
                Focus::AniList => AppView { anilist_index: self.anilist_index + 1, ..self },
            }
        } else {
            self
        }
    }

    /// The title of the focused list's item under its cursor, or the
    /// empty-selection error when that list holds nothing.
    pub open spec fn selection(self) -> Result<Seq<char>, SelectionError> {
        match self.focus {
            Focus::Gemini => if self.gemini_recs.len() > 0 {
                Ok(self.gemini_recs[self.gemini_index].title)
            } else {
                Err(SelectionError::EmptySelection)
            },
            Focus::AniList => if self.anilist_items.len() > 0 {
                Ok(self.anilist_items[self.anilist_index].title)
            } else {
                Err(SelectionError::EmptySelection)
            },
        }
    }
}

/// Why no item could be selected.
#[derive(Clone, Copy, PartialEq, Eq, Structural, Debug)]
pub enum SelectionError {
    /// The focused list holds nothing.
    EmptySelection,
}

impl App {
    /// The state invariant, on the state's mathematical value.
    pub open spec fn wf(&self) -> bool {
        self@.wf()
    }

    /// A fresh navigator over the given suggested picks: focus on them, both
    /// cursors at zero, page one of a still-empty catalog list, no filters,
    /// no status, not terminating.
    pub fn new(gemini_recs: Vec<Recommendation>) -> (app: Self)
        ensures
            app@ == AppView::initial(gemini_recs.deep_view()),
            app.wf(),
    {
        let app = Self {
            focus: Focus::Gemini,
            gemini_index: 0,
            anilist_index: 0,
            page: 1,
            gemini_recs,
            anilist_items: Vec::new(),
            genres: Vec::new(),
            tags: Vec::new(),
            has_next_page: false,
            status_message: String::new(),
            should_quit: false,
        };
        proof {
            assert(app@ =~= AppView::initial(app.gemini_recs.deep_view()));
        }
        app
    }

    /// Stores the filters the fetches will use: the genres as they came, and
    /// the optional tag as a list of zero or one element.
    pub fn set_filters(&mut self, genres: Vec<String>, tag: Option<String>)
        ensures
            final(self)@ == (AppView {
                genres: genres.deep_view(),
                tags: match tag {
                    Some(t) => seq![t@],
                    None => Seq::empty(),
                },
                ..old(self)@
            }),
            old(self).wf() ==> final(self).wf(),
    {
        self.genres = genres;
        let mut tags: Vec<String> = Vec::new();
        if let Some(t) = tag {
            tags.push(t);
        }
        self.tags = tags;
        proof {
            assert(self@ =~= (AppView {
                genres: self.genres.deep_view(),
                tags: self.tags.deep_view(),
                ..old(self)@
            }));
        }
    }

    /// Moves focus to the other list; both cursors and everything else stay.
    pub fn switch_focus(&mut self)
        ensures
            final(self)@ == old(self)@.with_focus_flipped(),
            old(self).wf() ==> final(self).wf(),
    {
        self.focus = match self.focus {
            Focus::Gemini => Focus::AniList,
            Focus::AniList => Focus::Gemini,
        };
        proof {
            assert(self@ =~= old(self)@.with_focus_flipped());
        }
    }

    /// Moves the active cursor one step up, stopped at the first item.
    pub fn move_up(&mut self)
        requires
            old(self).wf(),
        ensures
            final(self)@ == old(self)@.moved_up(),
            final(self).wf(),
    {
        match self.focus {
            Focus::Gemini => {
                if self.gemini_index > 0 {
                    self.gemini_index = self.gemini_index - 1;
                }
            },
            Focus::AniList => {
                if self.anilist_index > 0 {
                    self.anilist_index = self.anilist_index - 1;
                }
            },
        }
        proof {
            assert(self@ =~= old(self)@.moved_up());
        }
    }

    /// Moves the active cursor one step down, stopped at the last item. A
    /// move at the end of the catalog list does nothing here: the dispatcher
    /// turns it into a page fetch when one is available.
    pub fn move_down(&mut self)
        requires
            old(self).wf(),
        ensures
            final(self)@ == old(self)@.moved_down(),
            final(self).wf(),
    {
        match self.focus {
            Focus::Gemini => {
                let len = self.gemini_recs.len();
                if len > 0 && self.gemini_index < len - 1 {
                    self.gemini_index = self.gemini_index + 1;
                }
            },
            Focus::AniList => {
                let len = self.anilist_items.len();
                if len > 0 && self.anilist_index < len - 1 {
                    self.anilist_index = self.anilist_index + 1;
                }
            },
        }
        proof {
            assert(self@ =~= old(self)@.moved_down());
        }
    }

    /// The title of the item under the active cursor, or `EmptySelection`
    /// when the focused list holds nothing.
    pub fn current_selection(&self) -> (r: Result<String, SelectionError>)
        requires
            self.wf(),
        ensures
            match r {
                Ok(title) => self@.selection() == Ok::<Seq<char>, SelectionError>(title@),
                Err(e) => self@.selection() == Err::<Seq<char>, SelectionError>(e),
            },
    {
        match self.focus {
            Focus::Gemini => {
                if self.gemini_recs.len() > 0 {
                    Ok(self.gemini_recs[self.gemini_index].title.clone())
                } else {
                    Err(SelectionError::EmptySelection)
                }
            },
            Focus::AniList => {
                if self.anilist_items.len() > 0 {
                    Ok(self.anilist_items[self.anilist_index].title.romaji.clone())
                } else {
                    Err(SelectionError::EmptySelection)
                }
            },
        }
    }

    /// Empties the status message; nothing else changes. The event loop calls
    /// this right after each render, which is what limits a status message to
    /// exactly one rendered frame.
    pub fn clear_status(&mut self)
        ensures
            final(self)@ == old(self)@.with_status(Seq::empty()),
            old(self).wf() ==> final(self).wf(),
    {
        self.status_message = String::new();
        proof {
            assert(self@ =~= old(self)@.with_status(Seq::empty()));
        }
    }
}

} // verus!
