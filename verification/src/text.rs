//! The status messages the navigator surfaces, as exact character sequences,
//! together with a verified decimal rendering of page numbers.

use vstd::prelude::*;
use vstd::string::StringExecFns;

verus! {

/// The decimal digit character for `d`, for `d < 10`.
pub open spec fn dec_digit_char(d: nat) -> char {
    if d == 0 {
        '0'
    } else if d == 1 {
        '1'
    } else if d == 2 {
        '2'
    } else if d == 3 {
        '3'
    } else if d == 4 {
        '4'
    } else if d == 5 {
        '5'
    } else if d == 6 {
        '6'
    } else if d == 7 {
        '7'
    } else if d == 8 {
        '8'
    } else {
        '9'
    }
}

/// The decimal representation of `n`, most significant digit first, with no
/// leading zero except for `n == 0` itself.
pub open spec fn dec_rep(n: nat) -> Seq<char>
    decreases n,
{
    if n < 10 {
        seq![dec_digit_char(n)]
    } else {
        dec_rep(n / 10).push(dec_digit_char(n % 10))
    }
}

/// A decimal representation is never empty.
pub proof fn lemma_dec_rep_nonempty(n: nat)
    ensures
        dec_rep(n).len() >= 1,
    decreases n,
{
    if n >= 10 {
        lemma_dec_rep_nonempty(n / 10);
    }
}

fn digit_str(d: u32) -> (r: &'static str)
    requires
        d < 10,
    ensures
        r@ =~= seq![dec_digit_char(d as nat)],
{
    let r: &'static str = if d == 0 {
        "0"
    } else if d == 1 {
        "1"
    } else if d == 2 {
        "2"
    } else if d == 3 {
        "3"
    } else if d == 4 {
        "4"
    } else if d == 5 {
        "5"
    } else if d == 6 {
        "6"
    } else if d == 7 {
        "7"
    } else if d == 8 {
        "8"
    } else {
        "9"
    };
    proof {
        reveal_strlit("0");
        reveal_strlit("1");
        reveal_strlit("2");
        reveal_strlit("3");
        reveal_strlit("4");
        reveal_strlit("5");
        reveal_strlit("6");
        reveal_strlit("7");
        reveal_strlit("8");
        reveal_strlit("9");
    }
    r
}

/// The decimal rendering of `n`.
pub fn u32_dec_string(n: u32) -> (s: String)
    ensures
        s@ == dec_rep(n as nat),
    decreases n,
{
    if n < 10 {
        let s = digit_str(n).to_owned();
        proof {
            assert(s@ =~= dec_rep(n as nat));
        }
        s
    } else {
        let mut s = u32_dec_string(n / 10);
        s.append(digit_str(n % 10));
        proof {
            assert(s@ =~= dec_rep(n as nat));
        }
        s
    }
}

/// The message after a scroll-triggered page load.
pub open spec fn loaded_page_msg(p: int) -> Seq<char>
    recommends
        p >= 0,
{
    "Loaded page "@ + dec_rep(p as nat)
}

/// The message after an explicitly requested page load.
pub open spec fn page_msg(p: int) -> Seq<char>
    recommends
        p >= 0,
{
    "Page "@ + dec_rep(p as nat)
}

/// The message after a failed scroll-triggered fetch.
pub open spec fn failed_next_page_msg() -> Seq<char> {
    "Failed to load next page"@
}

/// The message after a failed explicitly requested fetch.
pub open spec fn failed_page_msg() -> Seq<char> {
    "Failed to load page"@
}

/// The message when no page lies beyond the current one.
pub open spec fn no_more_pages_msg() -> Seq<char> {
    "no more pages available"@
}

/// The message when activation finds the focused list empty.
pub open spec fn empty_selection_msg() -> Seq<char> {
    "Nothing to play: the focused list is empty"@
}

/// The message after resuming from the external player.
pub open spec fn watch_msg(title: Seq<char>) -> Seq<char> {
    "returned from watching: "@ + title
}

/// The message when the external player could not be started.
pub open spec fn launch_failed_msg() -> Seq<char> {
    "Failed to launch player"@
}

/// Builds the scroll-triggered page-load message.
pub fn loaded_page_message(p: i32) -> (s: String)
    requires
        p >= 0,
    ensures
        s@ == loaded_page_msg(p as int),
{
    let mut s = "Loaded page ".to_owned();
    let digits = u32_dec_string(p as u32);
    s.append(digits.as_str());
    s
}

/// Builds the explicit page-load message.
pub fn page_message(p: i32) -> (s: String)
    requires
        p >= 0,
    ensures
        s@ == page_msg(p as int),
{
    let mut s = "Page ".to_owned();
    let digits = u32_dec_string(p as u32);
    s.append(digits.as_str());
    s
}

/// Builds the failed scroll-triggered fetch message.
pub fn failed_next_page_message() -> (s: String)
    ensures
        s@ == failed_next_page_msg(),
{
    "Failed to load next page".to_owned()
}

/// Builds the failed explicit fetch message.
pub fn failed_page_message() -> (s: String)
    ensures
        s@ == failed_page_msg(),
{
    "Failed to load page".to_owned()
}

/// Builds the no-further-pages message.
pub fn no_more_pages_message() -> (s: String)
    ensures
        s@ == no_more_pages_msg(),
{
    "no more pages available".to_owned()
}

/// Builds the empty-selection message.
pub fn empty_selection_message() -> (s: String)
    ensures
        s@ == empty_selection_msg(),
{
    "Nothing to play: the focused list is empty".to_owned()
}

/// Builds the returned-from-watching message around the played title.
pub fn watch_message(title: &str) -> (s: String)
    ensures
        s@ == watch_msg(title@),
{
    let mut s = "returned from watching: ".to_owned();
    s.append(title);
    s
}

/// Builds the player-launch-failure message.
pub fn launch_failed_message() -> (s: String)
    ensures
        s@ == launch_failed_msg(),
{
    "Failed to launch player".to_owned()
}

/// None of the navigator's status messages is empty, so each one, once set,
/// is visibly rendered for its one frame of life.
pub proof fn lemma_messages_nonempty(p: int, title: Seq<char>)
    requires
        p >= 0,
    ensures
        loaded_page_msg(p).len() > 0,
        page_msg(p).len() > 0,
        failed_next_page_msg().len() > 0,
        failed_page_msg().len() > 0,
        no_more_pages_msg().len() > 0,
        empty_selection_msg().len() > 0,
        watch_msg(title).len() > 0,
        launch_failed_msg().len() > 0,
{
    lemma_dec_rep_nonempty(p as nat);
    reveal_strlit("Failed to load next page");
    reveal_strlit("Failed to load page");
    reveal_strlit("no more pages available");
    reveal_strlit("Nothing to play: the focused list is empty");
    reveal_strlit("returned from watching: ");
    reveal_strlit("Failed to launch player");
}

} // verus!
