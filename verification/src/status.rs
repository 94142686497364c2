//! The status loop: which users are asked about, told to start or to stop, and
//! in which state the backend is told that they are.
//!
//! A [`StatusLoop`] does nothing itself. It says what is to be done, and is
//! told how that ended.

use crate::config::DownloaderConfig;
use crate::reports::{all_reports, reported_users, reports_only, update_users};
use crate::streamer::{
    state_address, state_url, statusing_address, statusing_url, streamer_views, update_views,
    user_address, user_url, ActionView, OnlineState, OnlineView, Streamer, StreamerAction,
    StreamerState, StreamerUpdate, StreamerView, UpdateView,
};
use crate::text::{parse_bool, truth_value};
use vstd::prelude::*;

verus! {

/// How often the lookup of a user is repeated.
pub const LOOKUP_RETRIES: u32 = 4;

/// Why the status loop gave up.
#[derive(Clone, Copy, Debug, PartialEq, Eq, Structural)]
pub enum StatusError {
    /// The first message of the downloader was no heartbeat.
    NoHeartbeat,
    /// The downloader is gone.
    Disconnected,
    /// A request to the backend failed.
    RequestFailed,
    /// The backend did not say whether users are to be looked up.
    InvalidStatusing,
    /// The downloader receives no messages any more.
    SendFailed,
}

impl StatusError {
    /// What is said about the error.
    pub open spec fn message_text(self) -> Seq<char> {
        match self {
            StatusError::NoHeartbeat => "No Heartbeat Received!"@,
            StatusError::Disconnected => "downloader disconnected"@,
            StatusError::RequestFailed => "request to the backend failed"@,
            StatusError::InvalidStatusing => "provided string was not `true` or `false`"@,
            StatusError::SendFailed => "sending on a disconnected channel"@,
        }
    }

    /// What is said about the error.
    pub fn message(&self) -> (r: String)
        ensures
            r@ == self.message_text(),
    {
        match self {
            StatusError::NoHeartbeat => crate::downloader::HeartbeatError::new().to_string(),
            StatusError::Disconnected => "downloader disconnected".to_owned(),
            StatusError::RequestFailed => "request to the backend failed".to_owned(),
            StatusError::InvalidStatusing =>
                "provided string was not `true` or `false`".to_owned(),
            StatusError::SendFailed => "sending on a disconnected channel".to_owned(),
        }
    }
}

/// What the status loop is waiting for.
#[derive(Debug)]
pub enum StatusPhase {
    /// The heartbeat of the downloader.
    AwaitingHeartbeat,
    /// Whether users are to be looked up.
    AskingStatusing,
    /// The users whose streams are being recorded.
    ListingDownloading,
    /// The reports of the downloader.
    CollectingReports,
    /// That the backend takes what was reported about a user.
    PostingReport { pos: usize },
    /// The users who are to be stopped.
    ListingStopping,
    /// That the downloader is told to stop a user.
    SendingStop { pos: usize },
    /// That the backend takes that a user is stopped.
    PostingStopped { pos: usize },
    /// The users who are waited for.
    ListingWaiting,
    /// Whether a user is online.
    CheckingUser { pos: usize },
    /// That the backend takes that a user is being recorded.
    PostingOnline { pos: usize, link: String },
    /// That the downloader is told to start a user.
    SendingStart { pos: usize },
    /// The next user.
    PausingBetween { pos: usize },
    /// The next round.
    PausingRound,
    /// Nothing any more.
    Finished,
}

/// What happened.
#[derive(Debug)]
pub enum StatusEvent {
    /// A message of the downloader, unless it is gone.
    Received(Option<StreamerUpdate>),
    /// What the backend said, unless the request failed.
    Statusing(Option<String>),
    /// The users that the backend listed, unless it listed none.
    Users(Option<Vec<Streamer>>),
    /// The messages that the downloader has sent.
    Reports(Vec<StreamerUpdate>),
    /// The backend took a user, or the request failed.
    Posted(bool),
    /// A message was sent, or could not be.
    Sent(bool),
    /// What the page of a user showed.
    Checked(OnlineState),
    /// The time has passed.
    Slept,
}

/// What is to be done.
#[derive(Debug)]
pub enum StatusAction {
    /// Wait for the first message of the downloader.
    Receive,
    /// Ask the backend whether users are to be looked up.
    GetStatusing { url: String },
    /// Ask the backend for users.
    ListUsers { url: String },
    /// Take all messages that the downloader has sent.
    CollectReports,
    /// Tell the backend about a user.
    PostUser { url: String, body: Streamer },
    /// Send a message to the downloader.
    Send(StreamerUpdate),
    /// Look a user up, and again that many times at most.
    CheckUser { user: Streamer, retries: u32 },
    /// Wait that many seconds.
    Sleep(u64),
    /// Return the error.
    Fail(StatusError),
}

/// The status loop: the settings, what the backend said in this round, the
/// users that are being gone through, and what it waits for.
#[derive(Debug)]
pub struct StatusLoop {
    config: DownloaderConfig,
    statusing: bool,
    active: Vec<Streamer>,
    queue: Vec<Streamer>,
    phase: StatusPhase,
}

/// The model of a [`StatusPhase`].
pub enum StatusPhaseView {
    AwaitingHeartbeat,
    AskingStatusing,
    ListingDownloading,
    CollectingReports,
    PostingReport { pos: int },
    ListingStopping,
    SendingStop { pos: int },
    PostingStopped { pos: int },
    ListingWaiting,
    CheckingUser { pos: int },
    PostingOnline { pos: int, link: Seq<char> },
    SendingStart { pos: int },
    PausingBetween { pos: int },
    PausingRound,
    Finished,
}

/// The model of a [`StatusEvent`].
pub enum StatusEventView {
    Received(Option<UpdateView>),
    Statusing(Option<Seq<char>>),
    Users(Option<Seq<StreamerView>>),
    Reports(Seq<UpdateView>),
    Posted(bool),
    Sent(bool),
    Checked(OnlineView),
    Slept,
}

/// The model of a [`StatusAction`].
pub enum StatusActionView {
    Receive,
    GetStatusing { url: Seq<char> },
    ListUsers { url: Seq<char> },
    CollectReports,
    PostUser { url: Seq<char>, body: StreamerView },
    Send(UpdateView),
    CheckUser { user: StreamerView, retries: u32 },
    Sleep(u64),
    Fail(StatusError),
}

/// The model of a [`StatusLoop`].
pub struct StatusView {
    pub backend: Seq<char>,
    pub max_active: nat,
    pub round_secs: u64,
    pub between_secs: u64,
    pub statusing: bool,
    pub active: Seq<StreamerView>,
    pub queue: Seq<StreamerView>,
    pub phase: StatusPhaseView,
}

impl View for StatusPhase {
    type V = StatusPhaseView;

    open spec fn view(&self) -> StatusPhaseView {
        match self {
            StatusPhase::AwaitingHeartbeat => StatusPhaseView::AwaitingHeartbeat,
            StatusPhase::AskingStatusing => StatusPhaseView::AskingStatusing,
            StatusPhase::ListingDownloading => StatusPhaseView::ListingDownloading,
            StatusPhase::CollectingReports => StatusPhaseView::CollectingReports,
            StatusPhase::PostingReport { pos } => StatusPhaseView::PostingReport {
                pos: *pos as int,
            },
            StatusPhase::ListingStopping => StatusPhaseView::ListingStopping,
            StatusPhase::SendingStop { pos } => StatusPhaseView::SendingStop { pos: *pos as int },
            StatusPhase::PostingStopped { pos } => StatusPhaseView::PostingStopped {
                pos: *pos as int,
            },
            StatusPhase::ListingWaiting => StatusPhaseView::ListingWaiting,
            StatusPhase::CheckingUser { pos } => StatusPhaseView::CheckingUser {
                pos: *pos as int,
            },
            StatusPhase::PostingOnline { pos, link } => StatusPhaseView::PostingOnline {
                pos: *pos as int,
                link: link@,
            },
            StatusPhase::SendingStart { pos } => StatusPhaseView::SendingStart {
                pos: *pos as int,
            },
            StatusPhase::PausingBetween { pos } => StatusPhaseView::PausingBetween {
                pos: *pos as int,
            },
            StatusPhase::PausingRound => StatusPhaseView::PausingRound,
            StatusPhase::Finished => StatusPhaseView::Finished,
        }
    }
}

impl View for StatusEvent {
    type V = StatusEventView;

    open spec fn view(&self) -> StatusEventView {
        match self {
            StatusEvent::Received(Some(u)) => StatusEventView::Received(Some(u@)),
            StatusEvent::Received(None) => StatusEventView::Received(None),
            StatusEvent::Statusing(Some(text)) => StatusEventView::Statusing(Some(text@)),
            StatusEvent::Statusing(None) => StatusEventView::Statusing(None),
            StatusEvent::Users(Some(users)) => StatusEventView::Users(
                Some(streamer_views(users@)),
            ),
            StatusEvent::Users(None) => StatusEventView::Users(None),
            StatusEvent::Reports(reports) => StatusEventView::Reports(update_views(reports@)),
            StatusEvent::Posted(ok) => StatusEventView::Posted(*ok),
            StatusEvent::Sent(ok) => StatusEventView::Sent(*ok),
            StatusEvent::Checked(state) => StatusEventView::Checked(state@),
            StatusEvent::Slept => StatusEventView::Slept,
        }
    }
}

impl View for StatusAction {
    type V = StatusActionView;

    open spec fn view(&self) -> StatusActionView {
        match self {
            StatusAction::Receive => StatusActionView::Receive,
            StatusAction::GetStatusing { url } => StatusActionView::GetStatusing { url: url@ },
            StatusAction::ListUsers { url } => StatusActionView::ListUsers { url: url@ },
            StatusAction::CollectReports => StatusActionView::CollectReports,
            StatusAction::PostUser { url, body } => StatusActionView::PostUser {
                url: url@,
                body: body@,
            },
            StatusAction::Send(u) => StatusActionView::Send(u@),
            StatusAction::CheckUser { user, retries } => StatusActionView::CheckUser {
                user: user@,
                retries: *retries,
            },
            StatusAction::Sleep(secs) => StatusActionView::Sleep(*secs),
            StatusAction::Fail(e) => StatusActionView::Fail(*e),
        }
    }
}

impl View for StatusLoop {
    type V = StatusView;

    closed spec fn view(&self) -> StatusView {
        StatusView {
            backend: self.config.backend_url@,
            max_active: self.config.max_parallel_downloads as nat,
            round_secs: self.config.main_loop_sleep_time,
            between_secs: self.config.sleep_time_between_statusing,
            statusing: self.statusing,
            active: streamer_views(self.active@),
            queue: streamer_views(self.queue@),
            phase: self.phase@,
        }
    }
}

/// The first user of a name.
pub open spec fn is_first_named(s: Seq<StreamerView>, name: Seq<char>, pos: int) -> bool {
    &&& 0 <= pos < s.len()
    &&& s[pos].profile_name == name
    &&& forall|j: int| 0 <= j < pos ==> (#[trigger] s[j]).profile_name != name
}

/// A list without the first user of a name, if there is one.
pub open spec fn without_first(s: Seq<StreamerView>, name: Seq<char>) -> Seq<StreamerView> {
    if exists|pos: int| is_first_named(s, name, pos) {
        s.remove(choose|pos: int| is_first_named(s, name, pos))
    } else {
        s
    }
}

/// The users that the backend listed, none if it listed none.
pub open spec fn listed(users: Option<Seq<StreamerView>>) -> Seq<StreamerView> {
    match users {
        Some(s) => s,
        None => Seq::empty(),
    }
}

impl StatusView {
    /// A status loop that begins.
    pub open spec fn initial(config: DownloaderConfig) -> StatusView {
        StatusView {
            backend: config.backend_url@,
            max_active: config.max_parallel_downloads as nat,
            round_secs: config.main_loop_sleep_time,
            between_secs: config.sleep_time_between_statusing,
            statusing: false,
            active: Seq::empty(),
            queue: Seq::empty(),
            phase: StatusPhaseView::AwaitingHeartbeat,
        }
    }

    /// Whether users may be looked up: the backend wants it, and there is room
    /// for another recording.
    pub open spec fn may_look_up(self) -> bool {
        self.statusing && self.active.len() < self.max_active
    }

    /// The states that a status loop can be in.
    pub open spec fn wf(self) -> bool {
        let n = self.queue.len();
        match self.phase {
            StatusPhaseView::PostingReport { pos } => 0 <= pos < n,
            StatusPhaseView::SendingStop { pos } => 0 <= pos < n,
            StatusPhaseView::PostingStopped { pos } => 0 <= pos < n,
            StatusPhaseView::ListingWaiting => self.may_look_up(),
            StatusPhaseView::CheckingUser { pos } => 0 <= pos < n && self.may_look_up(),
            StatusPhaseView::PostingOnline { pos, link } => 0 <= pos < n && self.may_look_up(),
            StatusPhaseView::SendingStart { pos } => 0 <= pos < n && self.may_look_up(),
            StatusPhaseView::PausingBetween { pos } => 0 <= pos < n && self.may_look_up(),
            _ => true,
        }
    }

    /// Whether an event can follow.
    pub open spec fn accepts(self, event: StatusEventView) -> bool {
        match self.phase {
            StatusPhaseView::AwaitingHeartbeat => event is Received,
            StatusPhaseView::AskingStatusing => event is Statusing,
            StatusPhaseView::ListingDownloading => event is Users,
            StatusPhaseView::CollectingReports => match event {
                StatusEventView::Reports(reports) => all_reports(self.active, reports),
                _ => false,
            },
            StatusPhaseView::PostingReport { pos } => event is Posted,
            StatusPhaseView::ListingStopping => event is Users,
            StatusPhaseView::SendingStop { pos } => event is Sent,
            StatusPhaseView::PostingStopped { pos } => event == StatusEventView::Posted(true),
            StatusPhaseView::ListingWaiting => event is Users,
            StatusPhaseView::CheckingUser { pos } => event is Checked,
            StatusPhaseView::PostingOnline { pos, link } => event == StatusEventView::Posted(true),
            StatusPhaseView::SendingStart { pos } => event is Sent,
            StatusPhaseView::PausingBetween { pos } => event is Slept,
            StatusPhaseView::PausingRound => event is Slept,
            StatusPhaseView::Finished => false,
        }
    }

    /// The same loop, waiting for something else.
    pub open spec fn waiting_for(self, phase: StatusPhaseView) -> StatusView {
        StatusView { phase, ..self }
    }

    /// The end, with an error.
    pub open spec fn failed(self, e: StatusError) -> (StatusView, StatusActionView) {
        (self.waiting_for(StatusPhaseView::Finished), StatusActionView::Fail(e))
    }

    /// A round begins.
    pub open spec fn begin_round(self) -> (StatusView, StatusActionView) {
        (
            self.waiting_for(StatusPhaseView::AskingStatusing),
            StatusActionView::GetStatusing { url: statusing_address(self.backend) },
        )
    }

    /// The backend is asked for the users in a state.
    pub open spec fn list(self, state: Seq<char>, phase: StatusPhaseView) -> (
        StatusView,
        StatusActionView,
    ) {
        (
            self.waiting_for(phase),
            StatusActionView::ListUsers { url: state_address(self.backend, state) },
        )
    }

    /// The backend is told about a user.
    pub open spec fn post(self, user: StreamerView, phase: StatusPhaseView) -> (
        StatusView,
        StatusActionView,
    ) {
        (
            self.waiting_for(phase),
            StatusActionView::PostUser {
                url: user_address(self.backend, user.profile_name),
                body: user,
            },
        )
    }

    /// The backend is told what was reported about the user at `pos`. Behind
    /// the last one, it is asked who is to be stopped.
    pub open spec fn post_report(self, pos: int) -> (StatusView, StatusActionView) {
        if pos < self.queue.len() {
            self.post(self.queue[pos], StatusPhaseView::PostingReport { pos })
        } else {
            self.list("stopping"@, StatusPhaseView::ListingStopping)
        }
    }

    /// The user at `pos` is stopped: no longer counted as active, and the
    /// downloader is told. Behind the last one, it is seen whether users may be
    /// looked up.
    pub open spec fn stop_user(self, pos: int) -> (StatusView, StatusActionView) {
        if pos < self.queue.len() {
            (
                StatusView {
                    active: without_first(self.active, self.queue[pos].profile_name),
                    phase: StatusPhaseView::SendingStop { pos },
                    ..self
                },
                StatusActionView::Send(
                    UpdateView { streamer: self.queue[pos], action: ActionView::Stop },
                ),
            )
        } else if self.may_look_up() {
            self.list("waiting"@, StatusPhaseView::ListingWaiting)
        } else {
            self.pause()
        }
    }

    /// The user at `pos` is looked up. Behind the last one, the round ends.
    pub open spec fn check_user(self, pos: int) -> (StatusView, StatusActionView) {
        if pos < self.queue.len() {
            (
                self.waiting_for(StatusPhaseView::CheckingUser { pos }),
                StatusActionView::CheckUser { user: self.queue[pos], retries: LOOKUP_RETRIES },
            )
        } else {
            self.pause()
        }
    }

    /// The round ends.
    pub open spec fn pause(self) -> (StatusView, StatusActionView) {
        (
            self.waiting_for(StatusPhaseView::PausingRound),
            StatusActionView::Sleep(self.round_secs),
        )
    }

    /// The lookup of a user ends.
    pub open spec fn pause_between(self, pos: int) -> (StatusView, StatusActionView) {
        (
            self.waiting_for(StatusPhaseView::PausingBetween { pos }),
            StatusActionView::Sleep(self.between_secs),
        )
    }

    /// What follows an event: the next state, and what is to be done.
    pub open spec fn step(self, event: StatusEventView) -> (StatusView, StatusActionView) {
        match (self.phase, event) {
            (StatusPhaseView::AwaitingHeartbeat, StatusEventView::Received(None)) => self.failed(
                StatusError::Disconnected,
            ),
            (StatusPhaseView::AwaitingHeartbeat, StatusEventView::Received(Some(u))) => {
                if !(u.action is Heartbeat) {
                    self.failed(StatusError::NoHeartbeat)
                } else {
                    self.begin_round()
                }
            },
            (StatusPhaseView::AskingStatusing, StatusEventView::Statusing(None)) => self.failed(
                StatusError::RequestFailed,
            ),
            (StatusPhaseView::AskingStatusing, StatusEventView::Statusing(Some(text))) => {
                match truth_value(text) {
                    Some(statusing) => StatusView { statusing, ..self }.list(
                        "downloading"@,
                        StatusPhaseView::ListingDownloading,
                    ),
                    None => self.failed(StatusError::InvalidStatusing),
                }
            },
            (StatusPhaseView::ListingDownloading, StatusEventView::Users(users)) => (
                StatusView {
                    active: listed(users),
                    phase: StatusPhaseView::CollectingReports,
                    ..self
                },
                StatusActionView::CollectReports,
            ),
            (StatusPhaseView::CollectingReports, StatusEventView::Reports(reports)) =>
                StatusView { queue: reported_users(self.active, reports), ..self }.post_report(0),
            (StatusPhaseView::PostingReport { pos }, StatusEventView::Posted(ok)) => if ok {
                self.post_report(pos + 1)
            } else {
                self.failed(StatusError::RequestFailed)
            },
            (StatusPhaseView::ListingStopping, StatusEventView::Users(users)) => StatusView {
                queue: listed(users),
                ..self
            }.stop_user(0),
            (StatusPhaseView::SendingStop { pos }, StatusEventView::Sent(ok)) => if ok {
                self.post(
                    self.queue[pos].in_state(StreamerState::Stopped),
                    StatusPhaseView::PostingStopped { pos },
                )
            } else {
                self.failed(StatusError::SendFailed)
            },
            (StatusPhaseView::PostingStopped { pos }, StatusEventView::Posted(ok)) =>
                self.stop_user(pos + 1),
            (StatusPhaseView::ListingWaiting, StatusEventView::Users(users)) => StatusView {
                queue: listed(users),
                ..self
            }.check_user(0),
            (StatusPhaseView::CheckingUser { pos }, StatusEventView::Checked(state)) => {
                match state {
                    OnlineView::Online(link) => self.post(
                        self.queue[pos].in_state(StreamerState::Downloading),
                        StatusPhaseView::PostingOnline { pos, link },
                    ),
                    OnlineView::Offline => self.pause_between(pos),
                }
            },
            (StatusPhaseView::PostingOnline { pos, link }, StatusEventView::Posted(ok)) => (
                self.waiting_for(StatusPhaseView::SendingStart { pos }),
                StatusActionView::Send(
                    UpdateView {
                        streamer: self.queue[pos].in_state(StreamerState::Downloading),
                        action: ActionView::Start(link),
                    },
                ),
            ),
            (StatusPhaseView::SendingStart { pos }, StatusEventView::Sent(ok)) => if ok {
                self.pause_between(pos)
            } else {
                self.failed(StatusError::SendFailed)
            },
            (StatusPhaseView::PausingBetween { pos }, StatusEventView::Slept) => self.check_user(
                pos + 1,
            ),
            (StatusPhaseView::PausingRound, StatusEventView::Slept) => self.begin_round(),
            _ => self.pause(),
        }
    }
}

/// Every state that follows an accepted event is one that a status loop can be
/// in.
pub proof fn lemma_step_keeps_wf(s: StatusView, event: StatusEventView)
    requires
        s.wf(),
        s.accepts(event),
    ensures
        s.step(event).0.wf(),
{
}

/// There is one first user of a name at most, and that one is left out.
pub proof fn lemma_without_first(s: Seq<StreamerView>, name: Seq<char>, pos: int)
    requires
        is_first_named(s, name, pos),
    ensures
        without_first(s, name) == s.remove(pos),
{
    let p = choose|p: int| is_first_named(s, name, p);
    assert(is_first_named(s, name, p));
    assert(s[p].profile_name == name && s[pos].profile_name == name);
}

/// Removes the first user of a name, if there is one.
pub fn remove_first(users: &mut Vec<Streamer>, name: &String)
    ensures
        streamer_views(final(users)@) == without_first(streamer_views(old(users)@), name@),
{
    let ghost all = streamer_views(users@);
    let mut i: usize = 0;
    while i < users.len()
        invariant
            i <= users.len(),
            users@ == old(users)@,
            all == streamer_views(users@),
            forall|j: int| 0 <= j < i ==> (#[trigger] all[j]).profile_name != name@,
        decreases users.len() - i,
    {
        assert(all[i as int] == users@[i as int]@);
        if users[i].profile_name == *name {
            proof {
                lemma_without_first(all, name@, i as int);
                assert(streamer_views(users@.remove(i as int)) == all.remove(i as int));
            }
            users.remove(i);
            return;
        }
        i += 1;
    }
}

/// The users that the backend listed, none if it listed none.
fn users_or_none(users: Option<Vec<Streamer>>) -> (r: Vec<Streamer>)
    ensures
        streamer_views(r@) == listed(
            match users {
                Some(s) => Some(streamer_views(s@)),
                None => None,
            },
        ),
{
    match users {
        Some(s) => s,
        None => {
            let r: Vec<Streamer> = Vec::new();
            assert(streamer_views(r@) == Seq::<StreamerView>::empty());
            r
        },
    }
}

impl StatusLoop {
    /// A status loop that begins, and the first thing to be done: to wait for
    /// the downloader.
    pub fn new(config: DownloaderConfig) -> (r: (StatusLoop, StatusAction))
        ensures
            r.0@ == StatusView::initial(config),
            r.0@.wf(),
            r.1@ == StatusActionView::Receive,
    {
        let active: Vec<Streamer> = Vec::new();
        let queue: Vec<Streamer> = Vec::new();
        assert(streamer_views(active@) == Seq::<StreamerView>::empty());
        assert(streamer_views(queue@) == Seq::<StreamerView>::empty());
        (
            StatusLoop {
                config,
                statusing: false,
                active,
                queue,
                phase: StatusPhase::AwaitingHeartbeat,
            },
            StatusAction::Receive,
        )
    }

    /// Whether an event can follow.
    pub fn can_accept(&self, event: &StatusEvent) -> (r: bool)
        ensures
            r == self@.accepts(event@),
    {
        match (&self.phase, event) {
            (StatusPhase::AwaitingHeartbeat, StatusEvent::Received(_)) => true,
            (StatusPhase::AskingStatusing, StatusEvent::Statusing(_)) => true,
            (StatusPhase::ListingDownloading, StatusEvent::Users(_)) => true,
            (StatusPhase::CollectingReports, StatusEvent::Reports(reports)) => {
                reports_only(&self.active, reports)
            },
            (StatusPhase::PostingReport { .. }, StatusEvent::Posted(_)) => true,
            (StatusPhase::ListingStopping, StatusEvent::Users(_)) => true,
            (StatusPhase::SendingStop { .. }, StatusEvent::Sent(_)) => true,
            (StatusPhase::PostingStopped { .. }, StatusEvent::Posted(ok)) => *ok,
            (StatusPhase::ListingWaiting, StatusEvent::Users(_)) => true,
            (StatusPhase::CheckingUser { .. }, StatusEvent::Checked(_)) => true,
            (StatusPhase::PostingOnline { .. }, StatusEvent::Posted(ok)) => *ok,
            (StatusPhase::SendingStart { .. }, StatusEvent::Sent(_)) => true,
            (StatusPhase::PausingBetween { .. }, StatusEvent::Slept) => true,
            (StatusPhase::PausingRound, StatusEvent::Slept) => true,
            _ => false,
        }
    }

    /// The end, with an error.
    fn fail(self, e: StatusError) -> (r: (StatusLoop, StatusAction))
        ensures
            (r.0@, r.1@) == self@.failed(e),
    {
        (StatusLoop { phase: StatusPhase::Finished, ..self }, StatusAction::Fail(e))
    }

    /// A round begins.
    fn begin_round(self) -> (r: (StatusLoop, StatusAction))
        ensures
            (r.0@, r.1@) == self@.begin_round(),
    {
        let url = statusing_url(self.config.backend_url.as_str());
        (
            StatusLoop { phase: StatusPhase::AskingStatusing, ..self },
            StatusAction::GetStatusing { url },
        )
    }

    /// The backend is asked for the users in a state.
    fn list(self, state: &str, phase: StatusPhase) -> (r: (StatusLoop, StatusAction))
        ensures
            (r.0@, r.1@) == self@.list(state@, phase@),
    {
        let url = state_url(self.config.backend_url.as_str(), state);
        (StatusLoop { phase, ..self }, StatusAction::ListUsers { url })
    }

    /// The backend is told about a user.
    fn post(self, user: Streamer, phase: StatusPhase) -> (r: (StatusLoop, StatusAction))
        ensures
            (r.0@, r.1@) == self@.post(user@, phase@),
    {
        let url = user_url(self.config.backend_url.as_str(), user.profile_name.as_str());
        (StatusLoop { phase, ..self }, StatusAction::PostUser { url, body: user })
    }

    /// The backend is told what was reported about the user at `pos`, or asked
    /// who is to be stopped.
    fn post_report(self, pos: usize) -> (r: (StatusLoop, StatusAction))
        ensures
            (r.0@, r.1@) == self@.post_report(pos as int),
    {
        if pos < self.queue.len() {
            let user = self.queue[pos].clone();
            self.post(user, StatusPhase::PostingReport { pos })
        } else {
            self.list("stopping", StatusPhase::ListingStopping)
        }
    }

    /// The round ends.
    fn pause(self) -> (r: (StatusLoop, StatusAction))
        ensures
            (r.0@, r.1@) == self@.pause(),
    {
        let secs: u64 = self.config.main_loop_sleep_time;
        (StatusLoop { phase: StatusPhase::PausingRound, ..self }, StatusAction::Sleep(secs))
    }

    /// The lookup of a user ends.
    fn pause_between(self, pos: usize) -> (r: (StatusLoop, StatusAction))
        ensures
            (r.0@, r.1@) == self@.pause_between(pos as int),
    {
        let secs: u64 = self.config.sleep_time_between_statusing;
        (
            StatusLoop { phase: StatusPhase::PausingBetween { pos }, ..self },
            StatusAction::Sleep(secs),
        )
    }

    /// The user at `pos` is stopped, or it is seen whether users may be looked
    /// up.
    fn stop_user(self, pos: usize) -> (r: (StatusLoop, StatusAction))
        ensures
            (r.0@, r.1@) == self@.stop_user(pos as int),
    {
        if pos < self.queue.len() {
            let StatusLoop { config, statusing, mut active, queue, phase: _ } = self;
            remove_first(&mut active, &queue[pos].profile_name);
            let streamer = queue[pos].clone();
            let phase = StatusPhase::SendingStop { pos };
            (
                StatusLoop { config, statusing, active, queue, phase },
                StatusAction::Send(StreamerUpdate { streamer, action: StreamerAction::Stop }),
            )
        } else if !self.statusing || self.active.len() >= self.config.max_parallel_downloads {
            self.pause()
        } else {
            self.list("waiting", StatusPhase::ListingWaiting)
        }
    }

    /// The user at `pos` is looked up, or the round ends.
    fn check_user(self, pos: usize) -> (r: (StatusLoop, StatusAction))
        ensures
            (r.0@, r.1@) == self@.check_user(pos as int),
    {
        if pos < self.queue.len() {
            let user = self.queue[pos].clone();
            (
                StatusLoop { phase: StatusPhase::CheckingUser { pos }, ..self },
                StatusAction::CheckUser { user, retries: LOOKUP_RETRIES },
            )
        } else {
            self.pause()
        }
    }

    /// Acts upon an event: the loop afterwards, and what is to be done.
    pub fn next(self, event: StatusEvent) -> (r: (StatusLoop, StatusAction))
        requires
            self@.wf(),
            self@.accepts(event@),
        ensures
            (r.0@, r.1@) == self@.step(event@),
            r.0@.wf(),
    {
        proof {
            lemma_step_keeps_wf(self@, event@);
        }
        let ghost start = self@;
        let count: usize = self.queue.len();
        assert(count == start.queue.len());
        let StatusLoop { config, statusing, active, queue, phase } = self;
        match (phase, event) {
            (StatusPhase::AwaitingHeartbeat, StatusEvent::Received(received)) => {
                let phase = StatusPhase::AwaitingHeartbeat;
                let s = StatusLoop { config, statusing, active, queue, phase };
                match received {
                    None => s.fail(StatusError::Disconnected),
                    Some(u) => match u.action {
                        StreamerAction::Heartbeat => s.begin_round(),
                        _ => s.fail(StatusError::NoHeartbeat),
                    },
                }
            },
            (StatusPhase::AskingStatusing, StatusEvent::Statusing(answer)) => {
                let phase = StatusPhase::AskingStatusing;
                match answer {
                    None => {
                        let s = StatusLoop { config, statusing, active, queue, phase };
                        s.fail(StatusError::RequestFailed)
                    },
                    Some(text) => match parse_bool(text.as_str()) {
                        Some(statusing) => {
                            let s = StatusLoop { config, statusing, active, queue, phase };
                            s.list("downloading", StatusPhase::ListingDownloading)
                        },
                        None => {
                            let s = StatusLoop { config, statusing, active, queue, phase };
                            s.fail(StatusError::InvalidStatusing)
                        },
                    },
                }
            },
            (StatusPhase::ListingDownloading, StatusEvent::Users(users)) => {
                let active = users_or_none(users);
                let phase = StatusPhase::CollectingReports;
                (
                    StatusLoop { config, statusing, active, queue, phase },
                    StatusAction::CollectReports,
                )
            },
            (StatusPhase::CollectingReports, StatusEvent::Reports(reports)) => {
                let queue = update_users(&active, reports);
                let phase = StatusPhase::CollectingReports;
                let s = StatusLoop { config, statusing, active, queue, phase };
                s.post_report(0)
            },
            (StatusPhase::PostingReport { pos }, StatusEvent::Posted(ok)) => {
                let phase = StatusPhase::PostingReport { pos };
                let s = StatusLoop { config, statusing, active, queue, phase };
                if ok {
                    s.post_report(pos + 1)
                } else {
                    s.fail(StatusError::RequestFailed)
                }
            },
            (StatusPhase::ListingStopping, StatusEvent::Users(users)) => {
                let queue = users_or_none(users);
                let phase = StatusPhase::ListingStopping;
                let s = StatusLoop { config, statusing, active, queue, phase };
                s.stop_user(0)
            },
            (StatusPhase::SendingStop { pos }, StatusEvent::Sent(ok)) => {
                assert(start.queue[pos as int] == queue@[pos as int]@);
                let phase = StatusPhase::SendingStop { pos };
                let s = StatusLoop { config, statusing, active, queue, phase };
                if ok {
                    let user = s.queue[pos].in_state(StreamerState::Stopped);
                    s.post(user, StatusPhase::PostingStopped { pos })
                } else {
                    s.fail(StatusError::SendFailed)
                }
            },
            (StatusPhase::PostingStopped { pos }, StatusEvent::Posted(_)) => {
                let phase = StatusPhase::PostingStopped { pos };
                let s = StatusLoop { config, statusing, active, queue, phase };
                s.stop_user(pos + 1)
            },
            (StatusPhase::ListingWaiting, StatusEvent::Users(users)) => {
                let queue = users_or_none(users);
                let phase = StatusPhase::ListingWaiting;
                let s = StatusLoop { config, statusing, active, queue, phase };
                s.check_user(0)
            },
            (StatusPhase::CheckingUser { pos }, StatusEvent::Checked(state)) => {
                assert(start.queue[pos as int] == queue@[pos as int]@);
                let phase = StatusPhase::CheckingUser { pos };
                let s = StatusLoop { config, statusing, active, queue, phase };
                match state {
                    OnlineState::Online(link) => {
                        let user = s.queue[pos].in_state(StreamerState::Downloading);
                        s.post(user, StatusPhase::PostingOnline { pos, link })
                    },
                    OnlineState::Offline => s.pause_between(pos),
                }
            },
            (StatusPhase::PostingOnline { pos, link }, StatusEvent::Posted(_)) => {
                assert(start.queue[pos as int] == queue@[pos as int]@);
                let streamer = queue[pos].in_state(StreamerState::Downloading);
                let phase = StatusPhase::SendingStart { pos };
                (
                    StatusLoop { config, statusing, active, queue, phase },
                    StatusAction::Send(
                        StreamerUpdate { streamer, action: StreamerAction::Start(link) },
                    ),
                )
            },
            (StatusPhase::SendingStart { pos }, StatusEvent::Sent(ok)) => {
                let phase = StatusPhase::SendingStart { pos };
                let s = StatusLoop { config, statusing, active, queue, phase };
                if ok {
                    s.pause_between(pos)
                } else {
                    s.fail(StatusError::SendFailed)
                }
            },
            (StatusPhase::PausingBetween { pos }, StatusEvent::Slept) => {
                let phase = StatusPhase::PausingBetween { pos };
                let s = StatusLoop { config, statusing, active, queue, phase };
                s.check_user(pos + 1)
            },
            (StatusPhase::PausingRound, StatusEvent::Slept) => {
                let phase = StatusPhase::PausingRound;
                let s = StatusLoop { config, statusing, active, queue, phase };
                s.begin_round()
            },
            (phase, _) => {
                let s = StatusLoop { config, statusing, active, queue, phase };
                s.pause()
            },
        }
    }
}

} // verus!
