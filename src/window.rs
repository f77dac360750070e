use vstd::prelude::*;
use crate::config::DEFAULT_WINDOW_TITLE;
use crate::text::has_prefix;

verus! {

/// How many times the title-bar script is injected into a new window.
pub const INJECTION_ATTEMPTS: u64 = 5;

/// Milliseconds added to the wait before each further injection attempt.
pub const INJECTION_STEP_MS: u64 = 1000;

/// Width and height of a new window, in logical pixels.
pub const WINDOW_WIDTH: u32 = 1200;
pub const WINDOW_HEIGHT: u32 = 800;

/// Smallest width and height a window can be given.
pub const MIN_WINDOW_WIDTH: u32 = 800;
pub const MIN_WINDOW_HEIGHT: u32 = 600;

/// The script that sends a page to `url`.
pub open spec fn href_script(url: Seq<char>) -> Seq<char> {
    "window.location.href = '"@ + url + "'"@
}

/// The script that sends a page to `path` on the server at `base`.
pub fn navigate_script(base: &str, path: &str) -> (r: String)
    ensures
        r@ == href_script(base@ + path@),
{
    let mut out = String::from_str("window.location.href = '");
    out.append(base);
    out.append(path);
    out.append("'");
    proof {
        assert(out@ =~= href_script(base@ + path@));
    }
    out
}

/// The script that reloads a page.
pub fn reload_script() -> (r: String)
    ensures
        r@ == "window.location.reload()"@,
{
    String::from_str("window.location.reload()")
}

/// The script that goes one step back in a page's history.
pub fn back_script() -> (r: String)
    ensures
        r@ == "window.history.back()"@,
{
    String::from_str("window.history.back()")
}

/// The script that goes one step forward in a page's history.
pub fn forward_script() -> (r: String)
    ensures
        r@ == "window.history.forward()"@,
{
    String::from_str("window.history.forward()")
}

/// Relies on uuid::Uuid::new_v4 and its hyphenated text form: a fresh random
/// identifier of 36 characters.
#[verifier::external_body]
fn fresh_id() -> (r: String)
    ensures
        r@.len() == 36,
{
    uuid::Uuid::new_v4().to_string()
}

/// The label of a secondary window with identifier `id`.
pub fn window_label(id: &str) -> (r: String)
    ensures
        r@ == "onyx-"@ + id@,
{
    let mut out = String::from_str("onyx-");
    out.append(id);
    out
}

/// A label for a new secondary window, unique by a fresh random identifier.
pub fn new_window_label() -> (r: String)
    ensures
        has_prefix(r@, "onyx-"@),
        r@.len() == 41,
{
    let id = fresh_id();
    let r = window_label(id.as_str());
    proof {
        reveal_strlit("onyx-");
        assert(r@.subrange(0, 5) =~= "onyx-"@);
    }
    r
}

/// How a new window is to be built.
#[derive(Debug)]
pub struct WindowPlan {
    pub label: String,
    pub url: String,
    pub title: String,
    pub width: u32,
    pub height: u32,
    pub min_width: u32,
    pub min_height: u32,
}

/// The window to open on `url` under `label`: fixed size and minimum size,
/// the default title.
pub fn plan_window(label: &str, url: &str) -> (r: WindowPlan)
    ensures
        r.label@ == label@,
        r.url@ == url@,
        r.title@ == DEFAULT_WINDOW_TITLE@,
        r.width == WINDOW_WIDTH && r.height == WINDOW_HEIGHT,
        r.min_width == MIN_WINDOW_WIDTH && r.min_height == MIN_WINDOW_HEIGHT,
{
    WindowPlan {
        label: String::from_str(label),
        url: String::from_str(url),
        title: String::from_str(DEFAULT_WINDOW_TITLE),
        width: WINDOW_WIDTH,
        height: WINDOW_HEIGHT,
        min_width: MIN_WINDOW_WIDTH,
        min_height: MIN_WINDOW_HEIGHT,
    }
}

/// A new secondary window on the server at `server_url`, under a fresh label.
pub fn plan_new_window(server_url: &str) -> (r: WindowPlan)
    ensures
        has_prefix(r.label@, "onyx-"@),
        r.label@.len() == 41,
        r.url@ == server_url@,
        r.title@ == DEFAULT_WINDOW_TITLE@,
        r.width == WINDOW_WIDTH && r.height == WINDOW_HEIGHT,
        r.min_width == MIN_WINDOW_WIDTH && r.min_height == MIN_WINDOW_HEIGHT,
{
    let label = new_window_label();
    plan_window(label.as_str(), server_url)
}

/// The wait before injection attempt `k`, counted from zero.
pub open spec fn injection_delay(k: nat) -> nat {
    (INJECTION_STEP_MS * (k + 1)) as nat
}

/// The waits that a schedule at attempt `next` hands out when, before each
/// wait, the window is found open or not as `open` says in turn. A closed
/// window ends the schedule.
pub open spec fn scheduled_delays(next: nat, open: Seq<bool>) -> Seq<nat>
    decreases open.len(),
{
    if open.len() == 0 {
        Seq::empty()
    } else if next < INJECTION_ATTEMPTS && open[0] {
        seq![injection_delay(next)] + scheduled_delays(next + 1, open.drop_first())
    } else {
        scheduled_delays(INJECTION_ATTEMPTS as nat, open.drop_first())
    }
}

/// The retry schedule of the title-bar script of one window.
///
/// The page's load cannot be observed, so the script is injected blindly a
/// fixed number of times, each after a longer wait than the one before.
#[derive(Debug)]
pub struct ChromeInjection {
    next_attempt: u64,
}

impl View for ChromeInjection {
    type V = nat;

    closed spec fn view(&self) -> nat {
        self.next_attempt as nat
    }
}

impl ChromeInjection {
    /// Well-formed: no more attempts made than scheduled.
    pub closed spec fn wf(&self) -> bool {
        self.next_attempt <= INJECTION_ATTEMPTS
    }

    /// A schedule for a window that was just created.
    pub fn new() -> (r: ChromeInjection)
        ensures
            r.wf(),
            r@ == 0,
    {
        ChromeInjection { next_attempt: 0 }
    }

    /// The wait before the next attempt, after which the script is to be
    /// injected; `None` once the attempts are used up or the window is
    /// gone, and from then on.
    pub fn next_delay(&mut self, window_open: bool) -> (r: Option<u64>)
        requires
            old(self).wf(),
        ensures
            final(self).wf(),
            old(self)@ < INJECTION_ATTEMPTS && window_open ==> (r matches Some(d) && d
                == injection_delay(old(self)@) && final(self)@ == old(self)@ + 1),
            !(old(self)@ < INJECTION_ATTEMPTS && window_open) ==> (r is None && final(self)@
                == INJECTION_ATTEMPTS),
            forall|rest: Seq<bool>|
                #[trigger] scheduled_delays(old(self)@, seq![window_open] + rest) == (if r is Some {
                    seq![r->0 as nat]
                } else {
                    Seq::<nat>::empty()
                }) + scheduled_delays(final(self)@, rest),
    {
        proof {
            assert forall|rest: Seq<bool>| #[trigger] (seq![window_open] + rest).drop_first() == rest
                && (seq![window_open] + rest)[0] == window_open by {
                assert((seq![window_open] + rest).drop_first() =~= rest);
            }
        }
        if self.next_attempt < INJECTION_ATTEMPTS && window_open {
            let delay = INJECTION_STEP_MS * (self.next_attempt + 1);
            self.next_attempt = self.next_attempt + 1;
            proof {
                assert forall|rest: Seq<bool>|
                    #[trigger] scheduled_delays(old(self)@, seq![window_open] + rest) == seq![
                        delay as nat,
                    ] + scheduled_delays(self@, rest) by {
                    assert((seq![window_open] + rest).drop_first() == rest);
                }
            }
            Some(delay)
        } else {
            self.next_attempt = INJECTION_ATTEMPTS;
            proof {
                assert forall|rest: Seq<bool>|
                    #[trigger] scheduled_delays(old(self)@, seq![window_open] + rest) == Seq::<
                        nat,
                    >::empty() + scheduled_delays(self@, rest) by {
                    assert((seq![window_open] + rest).drop_first() == rest);
                    assert(Seq::<nat>::empty() + scheduled_delays(self@, rest) =~= scheduled_delays(
                        self@,
                        rest,
                    ));
                }
            }
            None
        }
    }
}

/// A schedule hands out at most as many waits as attempts are left.
pub proof fn lemma_attempts_bounded(next: nat, open: Seq<bool>)
    requires
        next <= INJECTION_ATTEMPTS,
    ensures
        scheduled_delays(next, open).len() <= INJECTION_ATTEMPTS - next,
    decreases open.len(),
{
    if open.len() > 0 {
        if next < INJECTION_ATTEMPTS && open[0] {
            lemma_attempts_bounded(next + 1, open.drop_first());
        } else {
            lemma_attempts_bounded(INJECTION_ATTEMPTS as nat, open.drop_first());
        }
    }
}

/// A schedule whose attempts are used up hands out nothing more.
pub proof fn lemma_exhausted_schedule(open: Seq<bool>)
    ensures
        scheduled_delays(INJECTION_ATTEMPTS as nat, open).len() == 0,
    decreases open.len(),
{
    if open.len() > 0 {
        lemma_exhausted_schedule(open.drop_first());
    }
}

/// Once the window is found closed, no further wait is handed out: the run
/// is the run cut before that check.
pub proof fn lemma_closed_window_stops(next: nat, open: Seq<bool>, i: int)
    requires
        0 <= i < open.len(),
        !open[i],
    ensures
        scheduled_delays(next, open) == scheduled_delays(next, open.take(i)),
    decreases i,
{
    if i == 0 {
        lemma_exhausted_schedule(open.drop_first());
        assert(scheduled_delays(next, open.take(0)) =~= Seq::<nat>::empty());
        assert(scheduled_delays(next, open) =~= Seq::<nat>::empty());
    } else {
        let rest = open.drop_first();
        assert(open.take(i).drop_first() =~= rest.take(i - 1));
        assert(rest[i - 1] == open[i]);
        assert(open.take(i)[0] == open[0]);
        if next < INJECTION_ATTEMPTS && open[0] {
            lemma_closed_window_stops(next + 1, rest, i - 1);
        } else {
            lemma_closed_window_stops(INJECTION_ATTEMPTS as nat, rest, i - 1);
        }
    }
}

/// For a window that stays open, a fresh schedule injects exactly five
/// times, after waits of one to five seconds, each longer than the last.
pub proof fn lemma_full_schedule(open: Seq<bool>)
    requires
        open.len() >= INJECTION_ATTEMPTS,
        forall|i: int| 0 <= i < open.len() ==> open[i],
    ensures
        scheduled_delays(0, open) == seq![1000nat, 2000, 3000, 4000, 5000],
        forall|i: int, j: int|
            0 <= i < j < scheduled_delays(0, open).len() ==> scheduled_delays(0, open)[i]
                < scheduled_delays(0, open)[j],
{
    let o1 = open.drop_first();
    let o2 = o1.drop_first();
    let o3 = o2.drop_first();
    let o4 = o3.drop_first();
    let o5 = o4.drop_first();
    lemma_exhausted_schedule(o5);
    assert(o1[0] == open[1]);
    assert(o2[0] == open[2]);
    assert(o3[0] == open[3]);
    assert(o4[0] == open[4]);
    assert(scheduled_delays(5, o5) =~= Seq::<nat>::empty());
    assert(scheduled_delays(4, o4) =~= seq![5000nat]);
    assert(scheduled_delays(3, o3) =~= seq![4000nat, 5000]);
    assert(scheduled_delays(2, o2) =~= seq![3000nat, 4000, 5000]);
    assert(scheduled_delays(1, o1) =~= seq![2000nat, 3000, 4000, 5000]);
    assert(scheduled_delays(0, open) =~= seq![1000nat, 2000, 3000, 4000, 5000]);
}

} // verus!
