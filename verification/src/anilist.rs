//! Types for the paged remote catalog: the query sent to it and the page it
//! answers with, together with the construction of the query value.

use vstd::prelude::*;

verus! {

/// The title of a catalog entry.
#[derive(Debug, PartialEq, Eq)]
pub struct Title {
    pub romaji: String,
}

impl View for Title {
    type V = Seq<char>;

    open spec fn view(&self) -> Seq<char> {
        self.romaji@
    }
}

impl DeepView for Title {
    type V = Seq<char>;

    open spec fn deep_view(&self) -> Seq<char> {
        self.view()
    }
}

impl Clone for Title {
    fn clone(&self) -> (r: Self)
        ensures
            r@ == self@,
    {
        Title { romaji: self.romaji.clone() }
    }
}

/// One catalog entry: its numeric id and its title.
#[derive(Debug, PartialEq, Eq)]
pub struct Anime {
    pub id: i32,
    pub title: Title,
}

/// The mathematical value of an `Anime`.
#[verifier::ext_equal]
pub struct AnimeView {
    pub id: i32,
    pub title: Seq<char>,
}

impl View for Anime {
    type V = AnimeView;

    open spec fn view(&self) -> AnimeView {
        AnimeView { id: self.id, title: self.title@ }
    }
}

impl DeepView for Anime {
    type V = AnimeView;

    open spec fn deep_view(&self) -> AnimeView {
        self.view()
    }
}

impl Clone for Anime {
    fn clone(&self) -> (r: Self)
        ensures
            r@ == self@,
    {
        Anime { id: self.id, title: self.title.clone() }
    }
}

/// Whether a page beyond the answered one exists.
#[derive(Debug, PartialEq, Eq)]
pub struct PageInfo {
    pub hasNextPage: bool,
}

/// One page of the catalog: its entries and whether a next page exists.
pub struct Page {
    pub pageInfo: PageInfo,
    pub media: Vec<Anime>,
}

/// The mathematical value of a `Page`.
#[verifier::ext_equal]
pub struct PageView {
    pub has_next_page: bool,
    pub media: Seq<AnimeView>,
}

impl View for Page {
    type V = PageView;

    open spec fn view(&self) -> PageView {
        PageView { has_next_page: self.pageInfo.hasNextPage, media: self.media.deep_view() }
    }
}

/// The variables sent with each catalog query.
pub struct Variables {
    pub page: i32,
    pub perPage: i32,
    pub genres: Vec<String>,
    pub tags: Vec<String>,
}

/// A complete catalog request: the fixed query text and its variables.
pub struct AniListQuery {
    pub query: String,
    pub variables: Variables,
}

/// The envelope the catalog answers with.
pub struct AniListResponse {
    pub data: PageData,
}

/// The single field of the catalog's answer envelope.
pub struct PageData {
    pub page: Page,
}

/// The fixed text of the catalog query: one page of entries sorted by score,
/// filtered by genres and tags, with a next-page marker.
pub fn anilist_query_text() -> (r: &'static str)
    ensures
        r@ == anilist_query_text_spec(),
{
    "query ($page: Int, $perPage: Int, $genres: [String], $tags: [String]) {\n  Page(page: $page, perPage: $perPage) {\n    pageInfo {\n      hasNextPage\n    }\n    media(\n      type: ANIME\n      genre_in: $genres\n      tag_in: $tags\n      sort: SCORE_DESC\n    ) {\n      id\n      title {\n        romaji\n      }\n      averageScore\n    }\n  }\n}\n"
}

/// The character sequence of the fixed catalog query text.
pub open spec fn anilist_query_text_spec() -> Seq<char> {
    "query ($page: Int, $perPage: Int, $genres: [String], $tags: [String]) {\n  Page(page: $page, perPage: $perPage) {\n    pageInfo {\n      hasNextPage\n    }\n    media(\n      type: ANIME\n      genre_in: $genres\n      tag_in: $tags\n      sort: SCORE_DESC\n    ) {\n      id\n      title {\n        romaji\n      }\n      averageScore\n    }\n  }\n}\n"@
}

/// Builds the request value for one page fetch: the fixed query text together
/// with the page, the page size and the filters.
pub fn build_query(page: i32, per_page: i32, genres: Vec<String>, tags: Vec<String>) -> (q:
    AniListQuery)
    ensures
        q.query@ == anilist_query_text_spec(),
        q.variables.page == page,
        q.variables.perPage == per_page,
        q.variables.genres@ == genres@,
        q.variables.tags@ == tags@,
{
    AniListQuery {
        query: anilist_query_text().to_owned(),
        variables: Variables { page, perPage: per_page, genres, tags },
    }
}

} // verus!
