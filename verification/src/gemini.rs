//! Types for the recommendation provider's reply, and the extraction of the
//! JSON object out of its free-form text answer.

use vstd::prelude::*;

verus! {

/// One suggested pick: a title and the reason it was suggested.
#[derive(Debug, PartialEq, Eq)]
pub struct Recommendation {
    pub title: String,
    pub reason: String,
}

/// The mathematical value of a `Recommendation`: both strings as
/// character sequences.
#[verifier::ext_equal]
pub struct RecommendationView {
    pub title: Seq<char>,
    pub reason: Seq<char>,
}

impl View for Recommendation {
    type V = RecommendationView;

    open spec fn view(&self) -> RecommendationView {
        RecommendationView { title: self.title@, reason: self.reason@ }
    }
}

impl DeepView for Recommendation {
    type V = RecommendationView;

    open spec fn deep_view(&self) -> RecommendationView {
        self.view()
    }
}

impl Clone for Recommendation {
    fn clone(&self) -> (r: Self)
        ensures
            r@ == self@,
    {
        Recommendation { title: self.title.clone(), reason: self.reason.clone() }
    }
}

/// What the recommendation provider answers at startup: filter genres, an
/// optional filter tag, and the list of suggested picks.
pub struct GeminiResponse {
    pub genres: Vec<String>,
    pub tag: Option<String>,
    pub recommendations: Vec<Recommendation>,
}

/// Smallest index `j >= i` with `s[j] == c`, or `s.len()` when no such
/// index exists.
pub open spec fn find_char_from(s: Seq<char>, c: char, i: int) -> int
    recommends
        0 <= i <= s.len(),
    decreases s.len() - i when 0 <= i <= s.len()
{
    if i >= s.len() {
        s.len() as int
    } else if s[i] == c {
        i
    } else {
        find_char_from(s, c, i + 1)
    }
}

/// Largest index `j < i` with `s[j] == c`, or `-1` when no such index exists.
pub open spec fn rfind_char_before(s: Seq<char>, c: char, i: int) -> int
    recommends
        0 <= i <= s.len(),
    decreases i when 0 <= i <= s.len()
{
    if i <= 0 {
        -1
    } else if s[i - 1] == c {
        i - 1
    } else {
        rfind_char_before(s, c, i - 1)
    }
}

/// Both an opening and a closing brace occur in the text.
pub open spec fn has_brace_pair(s: Seq<char>) -> bool {
    &&& find_char_from(s, '{', 0) < s.len()
    &&& rfind_char_before(s, '}', s.len() as int) >= 0
}

/// When both braces occur, the first `{` stands at most one place past the
/// last `}`: everywhere else the extraction's bounds are out of order.
pub open spec fn braces_extractable(s: Seq<char>) -> bool {
    has_brace_pair(s) ==> find_char_from(s, '{', 0) <= rfind_char_before(
        s,
        '}',
        s.len() as int,
    ) + 1
}

/// The slice of `s` from its first `{` to its last `}`, both included; the
/// empty sequence when the last `}` stands immediately before the first `{`.
pub open spec fn json_object_of(s: Seq<char>) -> Seq<char>
    recommends
        has_brace_pair(s),
        braces_extractable(s),
{
    s.subrange(find_char_from(s, '{', 0), rfind_char_before(s, '}', s.len() as int) + 1)
}

proof fn lemma_find_char_from_bounds(s: Seq<char>, c: char, i: int)
    requires
        0 <= i <= s.len(),
    ensures
        i <= find_char_from(s, c, i) <= s.len(),
        find_char_from(s, c, i) < s.len() ==> s[find_char_from(s, c, i)] == c,
    decreases s.len() - i,
{
    if i < s.len() && s[i] != c {
        lemma_find_char_from_bounds(s, c, i + 1);
    }
}

proof fn lemma_rfind_char_before_bounds(s: Seq<char>, c: char, i: int)
    requires
        0 <= i <= s.len(),
    ensures
        -1 <= rfind_char_before(s, c, i) < i,
        rfind_char_before(s, c, i) >= 0 ==> s[rfind_char_before(s, c, i)] == c,
    decreases i,
{
    if i > 0 && s[i - 1] != c {
        lemma_rfind_char_before_bounds(s, c, i - 1);
    }
}

/// Cuts the provider's free-form answer down to the JSON object inside it:
/// everything from the first `{` to the last `}`, both included — the empty
/// slice when the last `}` stands immediately before the first `{` — or the
/// no-JSON error when either brace is missing. Texts whose last `}` stands
/// more than one place before the first `{` are left out by the
/// precondition: there the extraction has no well-ordered bounds.
pub fn extract_json(text: &str) -> (r: Result<&str, &'static str>)
    requires
        braces_extractable(text@),
    ensures
        match r {
            Ok(sub) => has_brace_pair(text@) && sub@ == json_object_of(text@),
            Err(m) => !has_brace_pair(text@) && m@ == "No JSON found"@,
        },
{
    let n = text.unicode_len();
    let ghost t = text@;
    let mut start: usize = 0;
    while start < n && text.get_char(start) != '{'
        invariant
            t == text@,
            n == t.len(),
            0 <= start <= n,
            find_char_from(t, '{', 0) == find_char_from(t, '{', start as int),
        decreases n - start,
    {
        start = start + 1;
    }
    if start == n {
        proof {
            lemma_find_char_from_bounds(t, '{', 0);
        }
        return Err("No JSON found");
    }
    assert(find_char_from(t, '{', 0) == start as int);

    let mut end: usize = n;
    while end > 0 && text.get_char(end - 1) != '}'
        invariant
            t == text@,
            n == t.len(),
            0 <= end <= n,
            rfind_char_before(t, '}', n as int) == rfind_char_before(t, '}', end as int),
        decreases end,
    {
        end = end - 1;
    }
    if end == 0 {
        proof {
            lemma_rfind_char_before_bounds(t, '}', n as int);
        }
        return Err("No JSON found");
    }
    assert(rfind_char_before(t, '}', n as int) == end - 1);

    Ok(text.substring_char(start, end))
}

} // verus!
