//! Looking a user up again when the page could not be had: with growing
//! pauses, a limited number of times.

use crate::page::{obtain_user_status, page_state, PageError};
use crate::streamer::{OnlineState, OnlineView, Streamer};
use vstd::arithmetic::power2::{lemma2_to64, lemma_pow2_strictly_increases, lemma_pow2_unfold, pow2};
use vstd::prelude::*;

verus! {

/// How a request for the page of a user goes.
#[derive(Debug)]
pub enum PageReply {
    /// The server answered, with that HTTP status.
    Answered(u16),
    /// The server could not be reached.
    Unreachable,
    /// The page came.
    Page(String),
    /// The page broke off.
    BrokenBody,
}

/// What is to be done for a lookup.
#[derive(Debug)]
pub enum RetryAction {
    /// Read the page that the server sends.
    ReadPage,
    /// Wait that many seconds, then ask for the page under the address.
    WaitAndRequest { secs: u64, url: String },
    /// The page was read.
    Done(OnlineState),
    /// The page came but could not be read.
    Unreadable(PageError),
    /// There is no page to be had.
    GiveUp,
}

/// The model of a [`PageReply`].
pub enum ReplyView {
    Answered(u16),
    Unreachable,
    Page(Seq<char>),
    BrokenBody,
}

/// The model of a [`RetryAction`].
pub enum RetryActionView {
    ReadPage,
    WaitAndRequest { secs: nat, url: Seq<char> },
    Done(OnlineView),
    Unreadable(PageError),
    GiveUp,
}

impl View for PageReply {
    type V = ReplyView;

    open spec fn view(&self) -> ReplyView {
        match self {
            PageReply::Answered(status) => ReplyView::Answered(*status),
            PageReply::Unreachable => ReplyView::Unreachable,
            PageReply::Page(html) => ReplyView::Page(html@),
            PageReply::BrokenBody => ReplyView::BrokenBody,
        }
    }
}

impl View for RetryAction {
    type V = RetryActionView;

    open spec fn view(&self) -> RetryActionView {
        match self {
            RetryAction::ReadPage => RetryActionView::ReadPage,
            RetryAction::WaitAndRequest { secs, url } => RetryActionView::WaitAndRequest {
                secs: *secs as nat,
                url: url@,
            },
            RetryAction::Done(state) => RetryActionView::Done(state@),
            RetryAction::Unreadable(e) => RetryActionView::Unreadable(*e),
            RetryAction::GiveUp => RetryActionView::GiveUp,
        }
    }
}

/// What a lookup is waiting for.
#[derive(Clone, Copy, Debug, PartialEq, Eq, Structural)]
pub enum RetryPhase {
    /// That the server answers.
    Requesting,
    /// That the page comes.
    Reading,
    /// Nothing any more.
    Finished,
}

/// One lookup: the address of the page, how often the lookup was repeated, how
/// often it may be, and what it waits for.
#[derive(Debug)]
pub struct StatusRetry {
    pub url: String,
    pub retries: u32,
    pub retry_count: u32,
    pub phase: RetryPhase,
}

/// The model of a [`StatusRetry`].
pub struct RetryView {
    pub url: Seq<char>,
    pub retries: u32,
    pub retry_count: u32,
    pub phase: RetryPhase,
}

impl View for StatusRetry {
    type V = RetryView;

    open spec fn view(&self) -> RetryView {
        RetryView {
            url: self.url@,
            retries: self.retries,
            retry_count: self.retry_count,
            phase: self.phase,
        }
    }
}

/// Whether an HTTP status says that the page follows.
pub open spec fn is_success(status: u16) -> bool {
    200 <= status < 300
}

/// Whether an HTTP status is an error of the client or of the server.
pub open spec fn is_error(status: u16) -> bool {
    400 <= status < 600
}

/// Whether a reply says that no page follows.
pub open spec fn is_failure(reply: ReplyView) -> bool {
    match reply {
        ReplyView::Answered(status) => !is_success(status),
        ReplyView::Unreachable => true,
        _ => false,
    }
}

/// The pause before a repetition, in seconds: one before the first, twice the
/// one before for every further one.
pub open spec fn pause_before(repetition: nat) -> nat
    recommends
        repetition > 0,
{
    pow2((repetition - 1) as nat)
}

impl RetryView {
    /// A lookup that begins, and may be repeated that many times.
    pub open spec fn initial(url: Seq<char>, retry_count: u32) -> RetryView {
        RetryView { url, retries: 0, retry_count, phase: RetryPhase::Requesting }
    }

    /// Whether a reply can be acted upon: it is one that is waited for, the
    /// pause before the next repetition can be counted in 32 bits, and a status
    /// that is given up on is an error.
    pub open spec fn accepts(self, reply: ReplyView) -> bool {
        &&& match self.phase {
            RetryPhase::Requesting => reply is Answered || reply is Unreachable,
            RetryPhase::Reading => reply is Page || reply is BrokenBody,
            RetryPhase::Finished => false,
        }
        &&& is_failure(reply) && self.retries < self.retry_count ==> self.retries < 32
        &&& is_failure(reply) && self.retries >= self.retry_count ==> match reply {
            ReplyView::Answered(status) => is_error(status),
            _ => true,
        }
    }

    /// The lookup after a reply.
    pub open spec fn after(self, reply: ReplyView) -> RetryView {
        if is_failure(reply) && self.retries < self.retry_count {
            RetryView { retries: (self.retries + 1) as u32, ..self }
        } else if reply is Answered && !is_failure(reply) {
            RetryView { phase: RetryPhase::Reading, ..self }
        } else {
            RetryView { phase: RetryPhase::Finished, ..self }
        }
    }

    /// What is to be done after a reply.
    pub open spec fn action(self, reply: ReplyView) -> RetryActionView {
        if is_failure(reply) {
            if self.retries < self.retry_count {
                RetryActionView::WaitAndRequest {
                    secs: pause_before((self.retries + 1) as nat),
                    url: self.url,
                }
            } else {
                RetryActionView::GiveUp
            }
        } else {
            match reply {
                ReplyView::Page(html) => match page_state(html) {
                    Ok(state) => RetryActionView::Done(state),
                    Err(e) => RetryActionView::Unreadable(e),
                },
                ReplyView::BrokenBody => RetryActionView::GiveUp,
                _ => RetryActionView::ReadPage,
            }
        }
    }
}

impl StatusRetry {
    /// A lookup of a user that may be repeated that many times, and the first
    /// thing to be done: to ask for the page of the user at once.
    pub fn start(user: &Streamer, retry_count: u32) -> (r: (StatusRetry, RetryAction))
        ensures
            r.0@ == RetryView::initial(user@.profile_url, retry_count),
            r.1@ == (RetryActionView::WaitAndRequest { secs: 0, url: user@.profile_url }),
    {
        (
            StatusRetry {
                url: user.profile_url.clone(),
                retries: 0,
                retry_count,
                phase: RetryPhase::Requesting,
            },
            RetryAction::WaitAndRequest { secs: 0, url: user.profile_url.clone() },
        )
    }

    /// Whether a reply can be acted upon.
    pub fn can_accept(&self, reply: &PageReply) -> (r: bool)
        ensures
            r == self@.accepts(reply@),
    {
        let may_repeat = self.retries < self.retry_count;
        match (self.phase, reply) {
            (RetryPhase::Requesting, PageReply::Answered(status)) => {
                let success = 200 <= *status && *status < 300;
                let error = 400 <= *status && *status < 600;
                success || (may_repeat && self.retries < 32) || (!may_repeat && error)
            },
            (RetryPhase::Requesting, PageReply::Unreachable) => !may_repeat || self.retries < 32,
            (RetryPhase::Reading, PageReply::Page(_)) => true,
            (RetryPhase::Reading, PageReply::BrokenBody) => true,
            _ => false,
        }
    }

    /// Repeats the request after a pause, or gives up.
    fn repeat(&mut self) -> (action: RetryAction)
        requires
            old(self).retries < old(self).retry_count ==> old(self).retries < 32,
        ensures
            final(self)@ == old(self)@.after(ReplyView::Unreachable),
            action@ == old(self)@.action(ReplyView::Unreachable),
    {
        if self.retries < self.retry_count {
            self.retries = self.retries + 1;
            let delay: u32 = power_of_two(self.retries - 1);
            RetryAction::WaitAndRequest { secs: delay as u64, url: self.url.clone() }
        } else {
            self.phase = RetryPhase::Finished;
            RetryAction::GiveUp
        }
    }

    /// Acts upon a reply.
    pub fn next(&mut self, reply: PageReply) -> (action: RetryAction)
        requires
            old(self)@.accepts(reply@),
        ensures
            final(self)@ == old(self)@.after(reply@),
            action@ == old(self)@.action(reply@),
    {
        match reply {
            PageReply::Answered(status) => {
                if 200 <= status && status < 300 {
                    self.phase = RetryPhase::Reading;
                    RetryAction::ReadPage
                } else {
                    self.repeat()
                }
            },
            PageReply::Unreachable => self.repeat(),
            PageReply::Page(html) => {
                self.phase = RetryPhase::Finished;
                match obtain_user_status(html.as_str()) {
                    Ok(state) => RetryAction::Done(state),
                    Err(e) => RetryAction::Unreadable(e),
                }
            },
            PageReply::BrokenBody => {
                self.phase = RetryPhase::Finished;
                RetryAction::GiveUp
            },
        }
    }
}

/// Two to the power of `e`.
fn power_of_two(e: u32) -> (r: u32)
    requires
        e < 32,
    ensures
        r == pow2(e as nat),
{
    proof {
        lemma2_to64();
    }
    let mut r: u32 = 1;
    let mut i: u32 = 0;
    while i < e
        invariant
            i <= e < 32,
            r == pow2(i as nat),
            pow2(31) == 0x8000_0000,
        decreases e - i,
    {
        proof {
            lemma_pow2_unfold((i + 1) as nat);
            if i + 1 < 31 {
                lemma_pow2_strictly_increases((i + 1) as nat, 31);
            }
        }
        r = r * 2;
        i = i + 1;
    }
    r
}

/// The lookup after the first `k` replies.
pub open spec fn after_replies(s: RetryView, replies: Seq<ReplyView>, k: int) -> RetryView
    decreases k,
{
    if k <= 0 {
        s
    } else {
        after_replies(s, replies, k - 1).after(replies[k - 1])
    }
}

/// The pauses of that many failures in a row, added up.
pub open spec fn total_pause(n: nat) -> nat
    decreases n,
{
    if n == 0 {
        0
    } else {
        total_pause((n - 1) as nat) + pause_before(n)
    }
}

/// A lookup that fails every time, in whatever way, is repeated as often as it
/// may be, each time under the same address and after the pause that is due, and
/// then given up.
pub proof fn law_failures_end_in_giving_up(
    url: Seq<char>,
    retry_count: u32,
    replies: Seq<ReplyView>,
    k: int,
)
    requires
        forall|i: int| 0 <= i < replies.len() ==> is_failure(#[trigger] replies[i]),
        0 <= k < replies.len(),
        k <= retry_count,
    ensures
        ({
            let s = after_replies(RetryView::initial(url, retry_count), replies, k);
            &&& s == (RetryView {
                url,
                retries: k as u32,
                retry_count,
                phase: RetryPhase::Requesting,
            })
            &&& k < retry_count ==> s.action(replies[k]) == (RetryActionView::WaitAndRequest {
                secs: pause_before((k + 1) as nat),
                url,
            })
            &&& k == retry_count ==> s.action(replies[k]) == RetryActionView::GiveUp
                && s.after(replies[k]).phase is Finished
        }),
    decreases k,
{
    assert(is_failure(replies[k]));
    if k > 0 {
        law_failures_end_in_giving_up(url, retry_count, replies, k - 1);
        assert(is_failure(replies[k - 1]));
    }
}

/// A page is read only after the server answered with success, and whatever the
/// page says ends the lookup: it is not asked for again.
pub proof fn law_page_ends_the_lookup(s: RetryView, reply: ReplyView)
    requires
        s.accepts(reply),
    ensures
        s.action(reply) is ReadPage <==> (reply matches ReplyView::Answered(status)
            && is_success(status)),
        s.after(reply).phase is Reading <==> s.action(reply) is ReadPage,
        s.phase is Reading ==> s.after(reply).phase is Finished,
{
}

/// A lookup is finished exactly when there is a result, the page could not be
/// read, or the lookup is given up, and then accepts nothing any more.
pub proof fn law_finished_lookup_accepts_nothing(s: RetryView, reply: ReplyView)
    requires
        s.accepts(reply),
    ensures
        s.after(reply).phase is Finished <==> s.action(reply) is Done || s.action(reply)
            is Unreadable || s.action(reply) is GiveUp,
        s.after(reply).phase is Finished ==> forall|later: ReplyView| !s.after(reply).accepts(
            later,
        ),
{
}

/// Every request of a lookup goes to the address that it began with.
pub proof fn law_address_stays(s: RetryView, reply: ReplyView)
    ensures
        s.after(reply).url == s.url,
        s.action(reply) matches RetryActionView::WaitAndRequest { secs, url } ==> url == s.url,
{
}

/// Every pause is twice the one before, and all up to one add up to one second
/// less than the next.
pub proof fn law_pauses_double(n: nat)
    requires
        n > 0,
    ensures
        pause_before(1) == 1,
        pause_before(n + 1) == 2 * pause_before(n),
        total_pause(n) == pause_before(n + 1) - 1,
    decreases n,
{
    lemma2_to64();
    lemma_pow2_unfold(n);
    if n > 1 {
        law_pauses_double((n - 1) as nat);
    } else {
        assert(total_pause(0) == 0);
    }
}

/// No repetition exceeds the number that is allowed.
pub proof fn law_retries_are_limited(s: RetryView, reply: ReplyView)
    requires
        s.retries <= s.retry_count,
    ensures
        s.after(reply).retries <= s.after(reply).retry_count,
        s.after(reply).retry_count == s.retry_count,
{
}

/// A page is announced by the statuses from 200 to 299, and an error by those from
/// 400 to 599.
pub proof fn law_statuses(status: u16)
    ensures
        is_success(status) <==> status / 100 == 2,
        is_error(status) <==> status / 100 == 4 || status / 100 == 5,
        is_failure(ReplyView::Answered(status)) <==> status / 100 != 2,
        is_failure(ReplyView::Unreachable),
        forall|html: Seq<char>| !(#[trigger] is_failure(ReplyView::Page(html))),
        !is_failure(ReplyView::BrokenBody),
{
}

/// What a page that was read gives depends on the page alone: not on the address,
/// nor on how often the lookup was repeated or may be.
pub proof fn law_page_alone_decides(s: RetryView, t: RetryView, html: Seq<char>)
    ensures
        page_state(html) matches Ok(state) ==> s.action(ReplyView::Page(html))
            == RetryActionView::Done(state),
        page_state(html) matches Err(e) ==> s.action(ReplyView::Page(html))
            == RetryActionView::Unreadable(e),
        s.action(ReplyView::Page(html)) == t.action(ReplyView::Page(html)),
        s.after(ReplyView::Page(html)).phase is Finished,
{
}

/// A page that breaks off ends the lookup, and one that is announced is read,
/// however often the lookup was repeated.
pub proof fn law_answer_is_read(s: RetryView, status: u16)
    ensures
        200 <= status < 300 ==> s.action(ReplyView::Answered(status)) is ReadPage && s.after(
            ReplyView::Answered(status),
        ).phase is Reading,
        s.action(ReplyView::BrokenBody) is GiveUp,
        s.after(ReplyView::BrokenBody).phase is Finished,
{
}

/// A refusal and a server that cannot be reached are treated alike: the request is
/// repeated under the same address after a pause of two to the power of the
/// repetitions so far, as long as repetitions are left, and else given up.
pub proof fn law_failed_request_is_repeated(s: RetryView, status: u16)
    requires
        !(200 <= status < 300),
    ensures
        s.action(ReplyView::Answered(status)) == s.action(ReplyView::Unreachable),
        s.after(ReplyView::Answered(status)) == s.after(ReplyView::Unreachable),
        s.retries < s.retry_count ==> {
            &&& s.action(ReplyView::Unreachable) == (RetryActionView::WaitAndRequest {
                secs: pow2(s.retries as nat),
                url: s.url,
            })
            &&& s.after(ReplyView::Unreachable).retries == s.retries + 1
            &&& s.after(ReplyView::Unreachable).phase == s.phase
        },
        s.retries >= s.retry_count ==> {
            &&& s.action(ReplyView::Unreachable) is GiveUp
            &&& s.after(ReplyView::Unreachable).retries == s.retries
            &&& s.after(ReplyView::Unreachable).phase is Finished
        },
{
}

/// A lookup keeps its address and the number of repetitions that it may make, and
/// counts one more exactly when the request is repeated.
pub proof fn law_lookup_counts_repetitions(s: RetryView, reply: ReplyView)
    requires
        s.accepts(reply),
    ensures
        s.after(reply).url == s.url,
        s.after(reply).retry_count == s.retry_count,
        s.after(reply).retries == s.retries + (if s.action(reply) is WaitAndRequest {
            1int
        } else {
            0
        }),
{
}

/// A lookup that waits for an answer accepts any answer, and one that waits for a
/// page accepts any page, with two exceptions: a failure after 32 repetitions if
/// more are left, and a last answer that is neither success nor error.
pub proof fn law_accepted_replies(s: RetryView, status: u16, html: Seq<char>)
    ensures
        s.accepts(ReplyView::Page(html)) <==> s.phase is Reading,
        s.accepts(ReplyView::BrokenBody) <==> s.phase is Reading,
        s.accepts(ReplyView::Unreachable) <==> s.phase is Requesting && (s.retries < 32
            || s.retries >= s.retry_count),
        s.accepts(ReplyView::Answered(status)) <==> s.phase is Requesting && ({
            ||| status / 100 == 2
            ||| s.retries < s.retry_count && s.retries < 32
            ||| s.retries >= s.retry_count && (status / 100 == 4 || status / 100 == 5)
        }),
{
}

/// A lookup begins with a request under the address that is given, with all its
/// repetitions left.
pub proof fn law_lookup_begins(url: Seq<char>, retry_count: u32)
    ensures
        RetryView::initial(url, retry_count).url == url,
        RetryView::initial(url, retry_count).retries == 0,
        RetryView::initial(url, retry_count).retry_count == retry_count,
        RetryView::initial(url, retry_count).phase is Requesting,
{
}

/// The models of a lookup, a reply and an action hold what these hold.
pub proof fn law_lookup_models(s: StatusRetry, reply: PageReply, action: RetryAction)
    ensures
        s@.url == s.url@ && s@.retries == s.retries && s@.retry_count == s.retry_count && s@.phase
            == s.phase,
        match reply {
            PageReply::Answered(status) => reply@ == ReplyView::Answered(status),
            PageReply::Unreachable => reply@ is Unreachable,
            PageReply::Page(html) => reply@ == ReplyView::Page(html@),
            PageReply::BrokenBody => reply@ is BrokenBody,
        },
        match action {
            RetryAction::ReadPage => action@ is ReadPage,
            RetryAction::WaitAndRequest { secs, url } => action@
                == (RetryActionView::WaitAndRequest { secs: secs as nat, url: url@ }),
            RetryAction::Done(state) => action@ == RetryActionView::Done(state@),
            RetryAction::Unreadable(e) => action@ == RetryActionView::Unreadable(e),
            RetryAction::GiveUp => action@ is GiveUp,
        },
{
}

} // verus!
