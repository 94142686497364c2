//! What holds of every status loop, over more than one step.

use crate::config::DownloaderConfig;
use crate::reports::{
    after_report, all_reports, chosen_report, is_chosen, is_report, reported_users,
};
use crate::status::{
    is_first_named, lemma_step_keeps_wf, lemma_without_first, without_first, StatusAction,
    StatusActionView, StatusError, StatusEvent, StatusEventView, StatusPhaseView, StatusView,
    LOOKUP_RETRIES,
};
use crate::streamer::{
    law_addresses, law_list_models, state_address, statusing_address, user_address, ActionView,
    OnlineView, StreamerState, StreamerView, UpdateView,
};
use crate::text::{law_truth_values, truth_value};
use vstd::prelude::*;

verus! {

/// The status loop after `events`, none of which it may refuse.
pub open spec fn after_events(s: StatusView, events: Seq<StatusEventView>) -> StatusView
    decreases events.len(),
{
    if events.len() == 0 {
        s
    } else {
        after_events(s, events.drop_last()).step(events.last()).0
    }
}

/// Whether every one of the events can follow the ones before it.
pub open spec fn accepts_all(s: StatusView, events: Seq<StatusEventView>) -> bool
    decreases events.len(),
{
    events.len() > 0 ==> {
        &&& accepts_all(s, events.drop_last())
        &&& after_events(s, events.drop_last()).accepts(events.last())
    }
}

/// Whatever happens to a status loop, it is in one of the states that it can
/// be in, and its settings are the ones that it began with.
pub proof fn law_settings_stay(config: DownloaderConfig, events: Seq<StatusEventView>)
    requires
        accepts_all(StatusView::initial(config), events),
    ensures
        after_events(StatusView::initial(config), events).wf(),
        after_events(StatusView::initial(config), events).backend == config.backend_url@,
        after_events(StatusView::initial(config), events).max_active
            == config.max_parallel_downloads,
        after_events(StatusView::initial(config), events).round_secs
            == config.main_loop_sleep_time,
        after_events(StatusView::initial(config), events).between_secs
            == config.sleep_time_between_statusing,
    decreases events.len(),
{
    if events.len() > 0 {
        law_settings_stay(config, events.drop_last());
        lemma_step_keeps_wf(
            after_events(StatusView::initial(config), events.drop_last()),
            events.last(),
        );
    }
}

/// A status loop does nothing before the heartbeat of the downloader: any other
/// first message, and none, is an error.
pub proof fn law_nothing_without_heartbeat(config: DownloaderConfig, u: Option<UpdateView>)
    ensures
        u is None ==> StatusView::initial(config).step(StatusEventView::Received(u)).1
            == StatusActionView::Fail(StatusError::Disconnected),
        u matches Some(v) && !(v.action is Heartbeat) ==> StatusView::initial(config).step(
            StatusEventView::Received(u),
        ).1 == StatusActionView::Fail(StatusError::NoHeartbeat),
        u matches Some(v) && v.action is Heartbeat ==> StatusView::initial(config).step(
            StatusEventView::Received(u),
        ).1 == (StatusActionView::GetStatusing { url: statusing_address(config.backend_url@) }),
{
}

/// Users are looked up and recordings are started only while the backend wants
/// users to be looked up and there is room for another recording.
pub proof fn law_lookups_need_room(s: StatusView, event: StatusEventView)
    requires
        s.wf(),
        s.accepts(event),
        s.step(event).1 is CheckUser || (s.step(event).1 matches StatusActionView::Send(u)
            && u.action is Start),
    ensures
        s.statusing,
        s.active.len() < s.max_active,
{
}

/// The status loop tells the downloader to start and to stop recordings, and
/// nothing else.
pub proof fn law_messages_start_and_stop(s: StatusView, event: StatusEventView, u: UpdateView)
    requires
        s.wf(),
        s.accepts(event),
        s.step(event).1 == StatusActionView::Send(u),
    ensures
        u.action is Start || u.action is Stop,
{
}

/// What the backend is told about a user goes to the address of that user.
pub proof fn law_posts_go_to_their_user(
    s: StatusView,
    event: StatusEventView,
    url: Seq<char>,
    body: StreamerView,
)
    requires
        s.wf(),
        s.accepts(event),
        s.step(event).1 == (StatusActionView::PostUser { url, body }),
    ensures
        url == user_address(s.backend, body.profile_name),
{
}

/// A status loop that gave up does nothing any more.
pub proof fn law_failure_is_final(s: StatusView, event: StatusEventView, e: StatusError)
    requires
        s.wf(),
        s.accepts(event),
        s.step(event).1 == StatusActionView::Fail(e),
    ensures
        s.step(event).0.phase is Finished,
        forall|later: StatusEventView| !s.step(event).0.accepts(later),
{
}

/// A status loop ends with an error only: before that, there is always
/// something that can follow.
pub proof fn law_loop_goes_on(s: StatusView, event: StatusEventView)
    requires
        s.wf(),
        s.accepts(event),
        !(s.step(event).1 is Fail),
    ensures
        !(s.step(event).0.phase is Finished),
        exists|later: StatusEventView| s.step(event).0.accepts(later),
{
    let t = s.step(event).0;
    let none: Seq<UpdateView> = Seq::empty();
    assert(all_reports(t.active, none)) by {
        assert forall|name: Seq<char>| #[trigger] chosen_report(none, name) is None by {
            assert forall|i: int| !is_chosen(none, name, i) by {}
        }
    }
    assert(t.accepts(StatusEventView::Received(None))
        || t.accepts(StatusEventView::Statusing(None))
        || t.accepts(StatusEventView::Users(None))
        || t.accepts(StatusEventView::Reports(none))
        || t.accepts(StatusEventView::Posted(true))
        || t.accepts(StatusEventView::Sent(true))
        || t.accepts(StatusEventView::Checked(OnlineView::Offline))
        || t.accepts(StatusEventView::Slept));
}

/// Reports of how far recordings are, or that they have stopped, are always
/// accepted, in any number and order.
pub proof fn law_reports_are_accepted(s: StatusView, reports: Seq<UpdateView>)
    requires
        s.phase is CollectingReports,
        forall|i: int| 0 <= i < reports.len() ==> is_report(#[trigger] reports[i]),
    ensures
        s.accepts(StatusEventView::Reports(reports)),
{
    assert forall|i: int| 0 <= i < s.active.len() implies match chosen_report(
        reports,
        (#[trigger] s.active[i]).profile_name,
    ) {
        Some(u) => is_report(u),
        None => true,
    } by {
        let name = s.active[i].profile_name;
        if exists|c: int| is_chosen(reports, name, c) {
            let c = choose|c: int| is_chosen(reports, name, c);
            assert(is_chosen(reports, name, c));
        }
    }
}

/// Every element that is kept of a list by a partial map is in the result.
proof fn lemma_filter_map_holds<A, B>(s: Seq<A>, f: spec_fn(A) -> Option<B>, i: int)
    requires
        0 <= i < s.len(),
        f(s[i]) is Some,
    ensures
        s.filter_map(f).contains(f(s[i])->0),
    decreases s.len(),
{
    let last = s.len() - 1;
    s.lemma_filter_map_take_succ(f, last);
    assert(s.take(last + 1) == s);
    let init = s.take(last).filter_map(f);
    if i < last {
        lemma_filter_map_holds(s.take(last), f, i);
        assert(s.take(last)[i] == s[i]);
        let p = choose|p: int| 0 <= p < init.len() && init[p] == f(s[i])->0;
        assert(s.filter_map(f)[p] == init[p]);
    } else {
        assert(s.filter_map(f)[init.len() as int] == f(s[i])->0);
    }
}

/// A user whose recording has stopped is told to the backend as waiting, and
/// one whose recording goes on with the new size.
pub proof fn law_reported_user_is_posted(
    active: Seq<StreamerView>,
    reports: Seq<UpdateView>,
    i: int,
    u: UpdateView,
)
    requires
        0 <= i < active.len(),
        chosen_report(reports, active[i].profile_name) == Some(u),
    ensures
        u.action is Stop ==> reported_users(active, reports).contains(
            StreamerView { profile_status: StreamerState::Waiting, ..active[i] },
        ),
        !(u.action is Stop) ==> reported_users(active, reports).contains(
            StreamerView { download_size_mb: u.streamer.download_size_mb, ..active[i] },
        ),
{
    let change = |user: StreamerView|
        match chosen_report(reports, user.profile_name) {
            Some(v) => Some(after_report(user, v)),
            None => None,
        };
    lemma_filter_map_holds(active, change, i);
}

/// The state and the action when the backend took what was reported about the
/// first `k` users.
pub open spec fn after_posts(s: StatusView, reports: Seq<UpdateView>, k: int) -> (
    StatusView,
    StatusActionView,
)
    decreases k,
{
    if k <= 0 {
        s.step(StatusEventView::Reports(reports))
    } else {
        after_posts(s, reports, k - 1).0.step(StatusEventView::Posted(true))
    }
}

/// The backend is told about every user that something was reported about, one
/// after the other, and then asked who is to be stopped.
pub proof fn law_every_report_is_posted(s: StatusView, reports: Seq<UpdateView>, k: int)
    requires
        s.phase is CollectingReports,
        s.accepts(StatusEventView::Reports(reports)),
        0 <= k <= reported_users(s.active, reports).len(),
    ensures
        ({
            let users = reported_users(s.active, reports);
            let (t, action) = after_posts(s, reports, k);
            &&& t.active == s.active
            &&& t.queue == users
            &&& k < users.len() ==> {
                &&& t.phase == StatusPhaseView::PostingReport { pos: k }
                &&& action == (StatusActionView::PostUser {
                    url: user_address(s.backend, users[k].profile_name),
                    body: users[k],
                })
            }
            &&& k == users.len() ==> {
                &&& t.phase is ListingStopping
                &&& action == (StatusActionView::ListUsers {
                    url: state_address(s.backend, "stopping"@),
                })
            }
            &&& t.backend == s.backend
        }),
    decreases k,
{
    if k > 0 {
        law_every_report_is_posted(s, reports, k - 1);
    }
}

/// A list without the first user of the name of each of the first `k` users.
pub open spec fn without_users(
    active: Seq<StreamerView>,
    users: Seq<StreamerView>,
    k: int,
) -> Seq<StreamerView>
    decreases k,
{
    if k <= 0 {
        active
    } else {
        without_first(without_users(active, users, k - 1), users[k - 1].profile_name)
    }
}

/// The state and the action when the first `k` of the users who are to be
/// stopped have been.
pub open spec fn after_stops(s: StatusView, users: Seq<StreamerView>, k: int) -> (
    StatusView,
    StatusActionView,
)
    decreases k,
{
    if k <= 0 {
        s.step(StatusEventView::Users(Some(users)))
    } else {
        after_stops(s, users, k - 1).0.step(StatusEventView::Sent(true)).0.step(
            StatusEventView::Posted(true),
        )
    }
}

/// Every user who is to be stopped is: the downloader is told so, then the
/// backend that the user is stopped, and the user no longer counts as active.
/// After the last one, the waiting users are asked for if the backend wants
/// users to be looked up and there is room, and otherwise the round ends.
pub proof fn law_every_stopping_user_is_stopped(
    s: StatusView,
    users: Seq<StreamerView>,
    k: int,
)
    requires
        s.phase is ListingStopping,
        0 <= k <= users.len(),
    ensures
        ({
            let (t, action) = after_stops(s, users, k);
            let left = without_users(s.active, users, k);
            &&& t.backend == s.backend && t.max_active == s.max_active
            &&& t.round_secs == s.round_secs && t.statusing == s.statusing
            &&& t.queue == users
            &&& k < users.len() ==> {
                let (sent, post) = t.step(StatusEventView::Sent(true));
                &&& t.phase == StatusPhaseView::SendingStop { pos: k }
                &&& t.accepts(StatusEventView::Sent(true))
                &&& sent.accepts(StatusEventView::Posted(true))
                &&& t.active == without_users(s.active, users, k + 1)
                &&& action == StatusActionView::Send(
                    UpdateView { streamer: users[k], action: ActionView::Stop },
                )
                &&& post == (StatusActionView::PostUser {
                    url: user_address(s.backend, users[k].profile_name),
                    body: users[k].in_state(StreamerState::Stopped),
                })
            }
            &&& k == users.len() ==> {
                &&& t.active == left
                &&& s.statusing && left.len() < s.max_active ==> t.phase is ListingWaiting
                    && action == (StatusActionView::ListUsers {
                    url: state_address(s.backend, "waiting"@),
                })
                &&& !(s.statusing && left.len() < s.max_active) ==> t.phase is PausingRound
                    && action == StatusActionView::Sleep(s.round_secs)
            }
        }),
    decreases k,
{
    if k > 0 {
        law_every_stopping_user_is_stopped(s, users, k - 1);
        assert(without_users(s.active, users, k) == without_first(
            without_users(s.active, users, k - 1),
            users[k - 1].profile_name,
        ));
    }
    if k < users.len() {
        assert(without_users(s.active, users, k + 1) == without_first(
            without_users(s.active, users, k),
            users[k].profile_name,
        ));
    }
}

/// The state when the lookup of a user has ended, and the time between two
/// lookups has passed.
pub open spec fn after_lookup(s: StatusView, found: OnlineView) -> (
    StatusView,
    StatusActionView,
) {
    let t = s.step(StatusEventView::Checked(found)).0;
    match found {
        OnlineView::Online(link) => t.step(StatusEventView::Posted(true)).0.step(
            StatusEventView::Sent(true),
        ).0.step(StatusEventView::Slept),
        OnlineView::Offline => t.step(StatusEventView::Slept),
    }
}

/// The state and the action when the first `k` of the waiting users have been
/// looked up.
pub open spec fn after_lookups(
    s: StatusView,
    users: Seq<StreamerView>,
    found: Seq<OnlineView>,
    k: int,
) -> (StatusView, StatusActionView)
    decreases k,
{
    if k <= 0 {
        s.step(StatusEventView::Users(Some(users)))
    } else {
        after_lookup(after_lookups(s, users, found, k - 1).0, found[k - 1])
    }
}

/// Every waiting user is looked up. Of one who is online, the backend is told
/// that a recording runs, and then the downloader to start it with the link
/// that was found. Of one who is offline, nobody is told anything. After each
/// there is a pause, and after the last one the round ends.
pub proof fn law_every_waiting_user_is_looked_up(
    s: StatusView,
    users: Seq<StreamerView>,
    found: Seq<OnlineView>,
    k: int,
)
    requires
        s.phase is ListingWaiting,
        found.len() == users.len(),
        0 <= k <= users.len(),
    ensures
        ({
            let (t, action) = after_lookups(s, users, found, k);
            let recorded = users[k].in_state(StreamerState::Downloading);
            &&& t.backend == s.backend && t.round_secs == s.round_secs
            &&& t.between_secs == s.between_secs
            &&& t.active == s.active && t.queue == users
            &&& k < users.len() ==> {
                let (checked, next) = t.step(StatusEventView::Checked(found[k]));
                &&& t.phase == StatusPhaseView::CheckingUser { pos: k }
                &&& t.accepts(StatusEventView::Checked(found[k]))
                &&& action == (StatusActionView::CheckUser {
                    user: users[k],
                    retries: LOOKUP_RETRIES,
                })
                &&& found[k] is Offline ==> next == StatusActionView::Sleep(s.between_secs)
                &&& found[k] matches OnlineView::Online(link) ==> {
                    let (posted, start) = checked.step(StatusEventView::Posted(true));
                    &&& checked.accepts(StatusEventView::Posted(true))
                    &&& posted.accepts(StatusEventView::Sent(true))
                    &&& next == (StatusActionView::PostUser {
                        url: user_address(s.backend, users[k].profile_name),
                        body: recorded,
                    })
                    &&& start == StatusActionView::Send(
                        UpdateView { streamer: recorded, action: ActionView::Start(link) },
                    )
                    &&& posted.step(StatusEventView::Sent(true)).1 == StatusActionView::Sleep(
                        s.between_secs,
                    )
                }
            }
            &&& k == users.len() ==> {
                &&& t.phase is PausingRound
                &&& action == StatusActionView::Sleep(s.round_secs)
            }
        }),
    decreases k,
{
    if k > 0 {
        law_every_waiting_user_is_looked_up(s, users, found, k - 1);
    }
}

/// After a round comes the next: the backend is asked again whether users are
/// to be looked up, and its answer decides.
pub proof fn law_rounds_repeat(s: StatusView, answer: Seq<char>)
    requires
        s.phase is PausingRound,
    ensures
        s.step(StatusEventView::Slept).1 == (StatusActionView::GetStatusing {
            url: statusing_address(s.backend),
        }),
        s.step(StatusEventView::Slept).0.accepts(StatusEventView::Statusing(Some(answer))),
        answer == "true"@ ==> s.step(StatusEventView::Slept).0.step(
            StatusEventView::Statusing(Some(answer)),
        ).0.statusing,
        answer == "false"@ ==> !s.step(StatusEventView::Slept).0.step(
            StatusEventView::Statusing(Some(answer)),
        ).0.statusing,
{
    reveal_strlit("true");
    reveal_strlit("false");
    assert("true"@.len() != "false"@.len());
}

/// A status loop begins with the settings that it is given, knows of no user, and
/// waits for the heartbeat.
pub proof fn law_loop_begins(config: DownloaderConfig)
    ensures
        ({
            let s = StatusView::initial(config);
            &&& s.backend == config.backend_url@
            &&& s.max_active == config.max_parallel_downloads
            &&& s.round_secs == config.main_loop_sleep_time
            &&& s.between_secs == config.sleep_time_between_statusing
            &&& s.active.len() == 0
            &&& s.queue.len() == 0
            &&& s.phase is AwaitingHeartbeat
        }),
{
}

/// A heartbeat makes the status loop ask whether users are to be looked up. Any
/// other first message, and none, ends it.
pub proof fn law_heartbeat_opens_the_loop(s: StatusView, u: UpdateView)
    requires
        s.phase is AwaitingHeartbeat,
    ensures
        u.action is Heartbeat ==> s.step(StatusEventView::Received(Some(u))) == (
            StatusView { phase: StatusPhaseView::AskingStatusing, ..s },
            StatusActionView::GetStatusing { url: "http://"@ + s.backend + "/statusing"@ },
        ),
        !(u.action is Heartbeat) ==> s.step(StatusEventView::Received(Some(u))) == (
            StatusView { phase: StatusPhaseView::Finished, ..s },
            StatusActionView::Fail(StatusError::NoHeartbeat),
        ),
        s.step(StatusEventView::Received(None)) == (
            StatusView { phase: StatusPhaseView::Finished, ..s },
            StatusActionView::Fail(StatusError::Disconnected),
        ),
{
    law_addresses(s.backend, s.backend);
}

/// The answer of the backend is remembered, and whichever it is, the users that are
/// being recorded are asked for. No answer, and one that is no truth value, ends
/// the loop.
pub proof fn law_answer_is_remembered(s: StatusView, answer: Seq<char>)
    requires
        s.phase is AskingStatusing,
    ensures
        ({
            let yes = answer == seq!['t', 'r', 'u', 'e'];
            let no = answer == seq!['f', 'a', 'l', 's', 'e'];
            &&& yes || no ==> s.step(StatusEventView::Statusing(Some(answer))) == (
                StatusView {
                    statusing: yes,
                    phase: StatusPhaseView::ListingDownloading,
                    ..s
                },
                StatusActionView::ListUsers {
                    url: "http://"@ + s.backend + "/users/state/"@ + "downloading"@,
                },
            )
            &&& !yes && !no ==> s.step(StatusEventView::Statusing(Some(answer))) == (
                StatusView { phase: StatusPhaseView::Finished, ..s },
                StatusActionView::Fail(StatusError::InvalidStatusing),
            )
            &&& s.step(StatusEventView::Statusing(None)) == (
                StatusView { phase: StatusPhaseView::Finished, ..s },
                StatusActionView::Fail(StatusError::RequestFailed),
            )
        }),
{
    law_addresses(s.backend, "downloading"@);
    law_truth_values(answer);
    let yes = seq!['t', 'r', 'u', 'e'];
    let no = seq!['f', 'a', 'l', 's', 'e'];
    assert(yes.len() != no.len());
    assert(truth_value(answer) is Some ==> truth_value(answer) == Some(true) || truth_value(answer)
        == Some(false));
}

/// The active users are exactly those that the backend lists as being recorded,
/// all of them and whatever it said before, and none where it lists none. Then the
/// reports are collected.
pub proof fn law_listed_users_are_active(s: StatusView, users: Seq<StreamerView>)
    requires
        s.phase is ListingDownloading,
    ensures
        s.step(StatusEventView::Users(Some(users))) == (
            StatusView { active: users, phase: StatusPhaseView::CollectingReports, ..s },
            StatusActionView::CollectReports,
        ),
        s.step(StatusEventView::Users(None)) == (
            StatusView { active: Seq::empty(), phase: StatusPhaseView::CollectingReports, ..s },
            StatusActionView::CollectReports,
        ),
{
}

/// Whether users are to be looked up matters for nothing but whether waiting users
/// are asked for: until then two status loops that differ in it do the same, and
/// differ in nothing else afterwards.
pub proof fn law_statusing_only_matters_for_waiting_users(
    s: StatusView,
    other: bool,
    event: StatusEventView,
)
    requires
        s.phase is ListingDownloading || s.phase is CollectingReports || s.phase is PostingReport
            || s.phase is SendingStop,
    ensures
        ({
            let t = StatusView { statusing: other, ..s };
            &&& t.accepts(event) == s.accepts(event)
            &&& s.accepts(event) ==> t.step(event).1 == s.step(event).1
            &&& s.accepts(event) ==> t.step(event).0 == (StatusView {
                statusing: other,
                ..s.step(event).0
            })
        }),
{
}

/// What was reported is told to the backend first, the first reported user before
/// all others. Who is to be stopped is asked for only where nothing was reported.
/// The active users stay.
pub proof fn law_reports_come_first(s: StatusView, reports: Seq<UpdateView>)
    requires
        s.phase is CollectingReports,
        s.accepts(StatusEventView::Reports(reports)),
    ensures
        ({
            let users = reported_users(s.active, reports);
            &&& users.len() > 0 ==> s.step(StatusEventView::Reports(reports)) == (
                StatusView {
                    queue: users,
                    phase: StatusPhaseView::PostingReport { pos: 0 },
                    ..s
                },
                StatusActionView::PostUser {
                    url: "http://"@ + s.backend + "/users/"@ + users[0].profile_name,
                    body: users[0],
                },
            )
            &&& users.len() == 0 ==> s.step(StatusEventView::Reports(reports)) == (
                StatusView { queue: users, phase: StatusPhaseView::ListingStopping, ..s },
                StatusActionView::ListUsers {
                    url: "http://"@ + s.backend + "/users/state/"@ + "stopping"@,
                },
            )
        }),
{
    law_addresses(s.backend, reported_users(s.active, reports)[0].profile_name);
    law_addresses(s.backend, "stopping"@);
}

/// After one reported user comes the next one, and after the last one the question
/// who is to be stopped. A post that fails ends the loop.
pub proof fn law_next_report(s: StatusView, pos: int)
    requires
        s.phase == (StatusPhaseView::PostingReport { pos }),
        0 <= pos < s.queue.len(),
    ensures
        pos + 1 < s.queue.len() ==> s.step(StatusEventView::Posted(true)) == (
            StatusView { phase: StatusPhaseView::PostingReport { pos: pos + 1 }, ..s },
            StatusActionView::PostUser {
                url: "http://"@ + s.backend + "/users/"@ + s.queue[pos + 1].profile_name,
                body: s.queue[pos + 1],
            },
        ),
        pos + 1 == s.queue.len() ==> s.step(StatusEventView::Posted(true)) == (
            StatusView { phase: StatusPhaseView::ListingStopping, ..s },
            StatusActionView::ListUsers {
                url: "http://"@ + s.backend + "/users/state/"@ + "stopping"@,
            },
        ),
        s.step(StatusEventView::Posted(false)) == (
            StatusView { phase: StatusPhaseView::Finished, ..s },
            StatusActionView::Fail(StatusError::RequestFailed),
        ),
{
    law_addresses(s.backend, s.queue[pos + 1].profile_name);
    law_addresses(s.backend, "stopping"@);
}

/// What is left of a list without the first user of a name: everything before that
/// user and everything behind, or the whole list where there is no such user.
pub proof fn law_without_first(s: Seq<StreamerView>, name: Seq<char>, pos: int)
    ensures
        0 <= pos < s.len() && s[pos].profile_name == name && (forall|j: int|
            0 <= j < pos ==> (#[trigger] s[j]).profile_name != name) ==> without_first(s, name)
            == s.take(pos) + s.skip(pos + 1),
        (forall|j: int| 0 <= j < s.len() ==> (#[trigger] s[j]).profile_name != name)
            ==> without_first(s, name) == s,
{
    if 0 <= pos < s.len() && s[pos].profile_name == name && (forall|j: int|
        0 <= j < pos ==> (#[trigger] s[j]).profile_name != name) {
        assert(is_first_named(s, name, pos));
        lemma_without_first(s, name, pos);
        assert(s.remove(pos) =~= s.take(pos) + s.skip(pos + 1));
    }
}

/// Of the users who are to be stopped, the first one no longer counts as active,
/// and the downloader is told to stop that user. Where there is none, waiting users
/// are asked for if users are to be looked up and fewer are active than may be, and
/// else the round ends.
pub proof fn law_stopping_begins(s: StatusView, users: Seq<StreamerView>)
    requires
        s.phase is ListingStopping,
    ensures
        users.len() > 0 ==> s.step(StatusEventView::Users(Some(users))) == (
            StatusView {
                active: without_first(s.active, users[0].profile_name),
                queue: users,
                phase: StatusPhaseView::SendingStop { pos: 0 },
                ..s
            },
            StatusActionView::Send(UpdateView { streamer: users[0], action: ActionView::Stop }),
        ),
        users.len() == 0 ==> s.step(StatusEventView::Users(Some(users))) == s.step(
            StatusEventView::Users(None),
        ),
        s.statusing && s.active.len() < s.max_active ==> s.step(StatusEventView::Users(None)) == (
            StatusView { queue: Seq::empty(), phase: StatusPhaseView::ListingWaiting, ..s },
            StatusActionView::ListUsers {
                url: "http://"@ + s.backend + "/users/state/"@ + "waiting"@,
            },
        ),
        !s.statusing || s.active.len() >= s.max_active ==> s.step(StatusEventView::Users(None)) == (
            StatusView { queue: Seq::empty(), phase: StatusPhaseView::PausingRound, ..s },
            StatusActionView::Sleep(s.round_secs),
        ),
{
    law_addresses(s.backend, "waiting"@);
    if users.len() == 0 {
        assert(users =~= Seq::<StreamerView>::empty());
    }
}

/// Once the downloader was told to stop a user, the backend is told that the user
/// is stopped, with nothing downloaded. A message that cannot be sent ends the
/// loop.
pub proof fn law_stop_is_posted(s: StatusView, pos: int)
    requires
        s.phase == (StatusPhaseView::SendingStop { pos }),
        0 <= pos < s.queue.len(),
    ensures
        s.step(StatusEventView::Sent(true)) == (
            StatusView { phase: StatusPhaseView::PostingStopped { pos }, ..s },
            StatusActionView::PostUser {
                url: "http://"@ + s.backend + "/users/"@ + s.queue[pos].profile_name,
                body: StreamerView {
                    profile_url: s.queue[pos].profile_url,
                    profile_name: s.queue[pos].profile_name,
                    profile_status: StreamerState::Stopped,
                    download_size_mb: 0,
                },
            },
        ),
        s.step(StatusEventView::Sent(false)) == (
            StatusView { phase: StatusPhaseView::Finished, ..s },
            StatusActionView::Fail(StatusError::SendFailed),
        ),
{
    law_addresses(s.backend, s.queue[pos].profile_name);
}

/// After one user who is to be stopped comes the next one. After the last one,
/// waiting users are asked for if users are to be looked up and fewer are active
/// than may be, and else the round ends.
pub proof fn law_next_stop(s: StatusView, pos: int)
    requires
        s.phase == (StatusPhaseView::PostingStopped { pos }),
        0 <= pos < s.queue.len(),
    ensures
        pos + 1 < s.queue.len() ==> s.step(StatusEventView::Posted(true)) == (
            StatusView {
                active: without_first(s.active, s.queue[pos + 1].profile_name),
                phase: StatusPhaseView::SendingStop { pos: pos + 1 },
                ..s
            },
            StatusActionView::Send(
                UpdateView { streamer: s.queue[pos + 1], action: ActionView::Stop },
            ),
        ),
        pos + 1 == s.queue.len() && s.statusing && s.active.len() < s.max_active ==> s.step(
            StatusEventView::Posted(true),
        ) == (
            StatusView { phase: StatusPhaseView::ListingWaiting, ..s },
            StatusActionView::ListUsers {
                url: "http://"@ + s.backend + "/users/state/"@ + "waiting"@,
            },
        ),
        pos + 1 == s.queue.len() && (!s.statusing || s.active.len() >= s.max_active) ==> s.step(
            StatusEventView::Posted(true),
        ) == (
            StatusView { phase: StatusPhaseView::PausingRound, ..s },
            StatusActionView::Sleep(s.round_secs),
        ),
{
    law_addresses(s.backend, "waiting"@);
}

/// The waiting users are looked up from the first one on, each with four
/// repetitions at most. Where there is none, the round ends.
pub proof fn law_lookups_begin(s: StatusView, users: Seq<StreamerView>)
    requires
        s.phase is ListingWaiting,
    ensures
        users.len() > 0 ==> s.step(StatusEventView::Users(Some(users))) == (
            StatusView { queue: users, phase: StatusPhaseView::CheckingUser { pos: 0 }, ..s },
            StatusActionView::CheckUser { user: users[0], retries: 4 },
        ),
        users.len() == 0 ==> s.step(StatusEventView::Users(Some(users))) == s.step(
            StatusEventView::Users(None),
        ),
        s.step(StatusEventView::Users(None)) == (
            StatusView { queue: Seq::empty(), phase: StatusPhaseView::PausingRound, ..s },
            StatusActionView::Sleep(s.round_secs),
        ),
{
    if users.len() == 0 {
        assert(users =~= Seq::<StreamerView>::empty());
    }
}

/// Of a user who is online, the backend is told that a recording runs, with nothing
/// downloaded. Of one who is offline, nobody is told anything.
pub proof fn law_lookup_decides(s: StatusView, pos: int, link: Seq<char>)
    requires
        s.phase == (StatusPhaseView::CheckingUser { pos }),
        0 <= pos < s.queue.len(),
    ensures
        s.step(StatusEventView::Checked(OnlineView::Online(link))) == (
            StatusView { phase: StatusPhaseView::PostingOnline { pos, link }, ..s },
            StatusActionView::PostUser {
                url: "http://"@ + s.backend + "/users/"@ + s.queue[pos].profile_name,
                body: StreamerView {
                    profile_url: s.queue[pos].profile_url,
                    profile_name: s.queue[pos].profile_name,
                    profile_status: StreamerState::Downloading,
                    download_size_mb: 0,
                },
            },
        ),
        s.step(StatusEventView::Checked(OnlineView::Offline)) == (
            StatusView { phase: StatusPhaseView::PausingBetween { pos }, ..s },
            StatusActionView::Sleep(s.between_secs),
        ),
{
    law_addresses(s.backend, s.queue[pos].profile_name);
}

/// Then the downloader is told to start that user, under the link that was found.
pub proof fn law_start_follows_the_post(s: StatusView, pos: int, link: Seq<char>)
    requires
        s.phase == (StatusPhaseView::PostingOnline { pos, link }),
        0 <= pos < s.queue.len(),
    ensures
        s.step(StatusEventView::Posted(true)) == (
            StatusView { phase: StatusPhaseView::SendingStart { pos }, ..s },
            StatusActionView::Send(
                UpdateView {
                    streamer: StreamerView {
                        profile_url: s.queue[pos].profile_url,
                        profile_name: s.queue[pos].profile_name,
                        profile_status: StreamerState::Downloading,
                        download_size_mb: 0,
                    },
                    action: ActionView::Start(link),
                },
            ),
        ),
{
}

/// After a start there is a pause, after the pause the next user, and after the
/// last user the pause between two rounds. A message that cannot be sent ends the
/// loop.
pub proof fn law_next_lookup(s: StatusView, pos: int)
    requires
        0 <= pos < s.queue.len(),
    ensures
        s.phase == (StatusPhaseView::SendingStart { pos }) ==> {
            &&& s.step(StatusEventView::Sent(true)) == (
                StatusView { phase: StatusPhaseView::PausingBetween { pos }, ..s },
                StatusActionView::Sleep(s.between_secs),
            )
            &&& s.step(StatusEventView::Sent(false)) == (
                StatusView { phase: StatusPhaseView::Finished, ..s },
                StatusActionView::Fail(StatusError::SendFailed),
            )
        },
        s.phase == (StatusPhaseView::PausingBetween { pos }) ==> {
            &&& pos + 1 < s.queue.len() ==> s.step(StatusEventView::Slept) == (
                StatusView { phase: StatusPhaseView::CheckingUser { pos: pos + 1 }, ..s },
                StatusActionView::CheckUser { user: s.queue[pos + 1], retries: 4 },
            )
            &&& pos + 1 == s.queue.len() ==> s.step(StatusEventView::Slept) == (
                StatusView { phase: StatusPhaseView::PausingRound, ..s },
                StatusActionView::Sleep(s.round_secs),
            )
        },
{
}

/// After the pause between two rounds the next one begins like the first.
pub proof fn law_next_round(s: StatusView)
    requires
        s.phase is PausingRound,
    ensures
        s.step(StatusEventView::Slept) == (
            StatusView { phase: StatusPhaseView::AskingStatusing, ..s },
            StatusActionView::GetStatusing { url: "http://"@ + s.backend + "/statusing"@ },
        ),
{
    law_addresses(s.backend, s.backend);
}

/// Every status loop accepts any outcome of what it asked for, but for two: a post
/// of a stop or of a start that failed, and a message that counts for an active
/// user and is no report.
pub proof fn law_accepted_outcomes(s: StatusView, event: StatusEventView)
    ensures
        s.accepts(event) <==> match event {
            StatusEventView::Received(_) => s.phase is AwaitingHeartbeat,
            StatusEventView::Statusing(_) => s.phase is AskingStatusing,
            StatusEventView::Users(_) => s.phase is ListingDownloading || s.phase
                is ListingStopping || s.phase is ListingWaiting,
            StatusEventView::Reports(reports) => s.phase is CollectingReports && all_reports(
                s.active,
                reports,
            ),
            StatusEventView::Posted(ok) => s.phase is PostingReport || ok && (s.phase
                is PostingStopped || s.phase is PostingOnline),
            StatusEventView::Sent(_) => s.phase is SendingStop || s.phase is SendingStart,
            StatusEventView::Checked(_) => s.phase is CheckingUser,
            StatusEventView::Slept => s.phase is PausingBetween || s.phase is PausingRound,
        },
{
}

/// The models of an event and of an action hold what these hold.
pub proof fn law_loop_models(event: StatusEvent, action: StatusAction)
    ensures
        match event {
            StatusEvent::Received(Some(u)) => event@ == StatusEventView::Received(Some(u@)),
            StatusEvent::Received(None) => event@ == StatusEventView::Received(None),
            StatusEvent::Statusing(Some(text)) => event@ == StatusEventView::Statusing(Some(text@)),
            StatusEvent::Statusing(None) => event@ == StatusEventView::Statusing(None),
            StatusEvent::Users(Some(users)) => {
                &&& event@ matches StatusEventView::Users(Some(views))
                &&& views.len() == users@.len()
                &&& forall|i: int| 0 <= i < users@.len() ==> #[trigger] views[i] == users@[i]@
            },
            StatusEvent::Users(None) => event@ == StatusEventView::Users(None),
            StatusEvent::Reports(reports) => {
                &&& event@ matches StatusEventView::Reports(views)
                &&& views.len() == reports@.len()
                &&& forall|i: int| 0 <= i < reports@.len() ==> #[trigger] views[i] == reports@[i]@
            },
            StatusEvent::Posted(ok) => event@ == StatusEventView::Posted(ok),
            StatusEvent::Sent(ok) => event@ == StatusEventView::Sent(ok),
            StatusEvent::Checked(state) => event@ == StatusEventView::Checked(state@),
            StatusEvent::Slept => event@ is Slept,
        },
        match action {
            StatusAction::Receive => action@ is Receive,
            StatusAction::GetStatusing { url } => action@
                == (StatusActionView::GetStatusing { url: url@ }),
            StatusAction::ListUsers { url } => action@
                == (StatusActionView::ListUsers { url: url@ }),
            StatusAction::CollectReports => action@ is CollectReports,
            StatusAction::PostUser { url, body } => action@
                == (StatusActionView::PostUser { url: url@, body: body@ }),
            StatusAction::Send(u) => action@ == StatusActionView::Send(u@),
            StatusAction::CheckUser { user, retries } => action@
                == (StatusActionView::CheckUser { user: user@, retries }),
            StatusAction::Sleep(secs) => action@ == StatusActionView::Sleep(secs),
            StatusAction::Fail(e) => action@ == StatusActionView::Fail(e),
        },
{
    match event {
        StatusEvent::Users(Some(users)) => {
            law_list_models(users@, Seq::empty());
        },
        StatusEvent::Reports(reports) => {
            law_list_models(Seq::empty(), reports@);
        },
        _ => {},
    }
}

} // verus!
