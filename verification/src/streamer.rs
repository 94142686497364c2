//! The users that are watched, the messages about them, and the addresses of
//! the backend that keeps them.

use vstd::prelude::*;

verus! {

/// What is being done about a user.
#[derive(Clone, Copy, Debug, PartialEq, Eq, Structural)]
pub enum StreamerState {
    Added,
    Waiting,
    Downloading,
    Stopped,
    Stopping,
    Error(u32),
}

/// What the page of a user showed: a link to the stream, or no stream.
#[derive(Debug)]
pub enum OnlineState {
    Online(String),
    Offline,
}

/// A user whose stream is recorded when there is one.
#[derive(Debug)]
pub struct Streamer {
    pub profile_url: String,
    pub profile_name: String,
    pub profile_status: StreamerState,
    pub download_size_mb: u64,
}

/// What the status loop and the downloader tell each other about a user.
#[derive(Debug)]
pub enum StreamerAction {
    Heartbeat,
    Start(String),
    Stop,
    StopAll,
    Update,
}

/// A message about a user.
#[derive(Debug)]
pub struct StreamerUpdate {
    pub streamer: Streamer,
    pub action: StreamerAction,
}

/// The model of an [`OnlineState`].
pub enum OnlineView {
    Online(Seq<char>),
    Offline,
}

/// The model of a [`Streamer`].
pub struct StreamerView {
    pub profile_url: Seq<char>,
    pub profile_name: Seq<char>,
    pub profile_status: StreamerState,
    pub download_size_mb: u64,
}

/// The model of a [`StreamerAction`].
pub enum ActionView {
    Heartbeat,
    Start(Seq<char>),
    Stop,
    StopAll,
    Update,
}

/// The model of a [`StreamerUpdate`].
pub struct UpdateView {
    pub streamer: StreamerView,
    pub action: ActionView,
}

impl View for OnlineState {
    type V = OnlineView;

    open spec fn view(&self) -> OnlineView {
        match self {
            OnlineState::Online(link) => OnlineView::Online(link@),
            OnlineState::Offline => OnlineView::Offline,
        }
    }
}

impl View for Streamer {
    type V = StreamerView;

    open spec fn view(&self) -> StreamerView {
        StreamerView {
            profile_url: self.profile_url@,
            profile_name: self.profile_name@,
            profile_status: self.profile_status,
            download_size_mb: self.download_size_mb,
        }
    }
}

impl View for StreamerAction {
    type V = ActionView;

    open spec fn view(&self) -> ActionView {
        match self {
            StreamerAction::Heartbeat => ActionView::Heartbeat,
            StreamerAction::Start(link) => ActionView::Start(link@),
            StreamerAction::Stop => ActionView::Stop,
            StreamerAction::StopAll => ActionView::StopAll,
            StreamerAction::Update => ActionView::Update,
        }
    }
}

impl View for StreamerUpdate {
    type V = UpdateView;

    open spec fn view(&self) -> UpdateView {
        UpdateView { streamer: self.streamer@, action: self.action@ }
    }
}

/// The models of a list of users.
pub open spec fn streamer_views(s: Seq<Streamer>) -> Seq<StreamerView> {
    s.map_values(|x: Streamer| x@)
}

/// The models of a list of messages.
pub open spec fn update_views(s: Seq<StreamerUpdate>) -> Seq<UpdateView> {
    s.map_values(|x: StreamerUpdate| x@)
}

impl StreamerView {
    /// The user of messages that are about nobody.
    pub open spec fn nobody() -> StreamerView {
        StreamerView {
            profile_url: "N/A"@,
            profile_name: "N/A"@,
            profile_status: StreamerState::Stopped,
            download_size_mb: 0,
        }
    }

    /// The same user in another state, with nothing downloaded.
    pub open spec fn in_state(self, state: StreamerState) -> StreamerView {
        StreamerView { profile_status: state, download_size_mb: 0, ..self }
    }
}

impl Default for Streamer {
    fn default() -> (r: Self)
        ensures
            r@ == StreamerView::nobody(),
    {
        Streamer {
            profile_url: "N/A".to_owned(),
            profile_name: "N/A".to_owned(),
            profile_status: StreamerState::Stopped,
            download_size_mb: 0,
        }
    }
}

impl Clone for Streamer {
    fn clone(&self) -> (r: Self)
        ensures
            r == *self,
    {
        Streamer {
            profile_url: self.profile_url.clone(),
            profile_name: self.profile_name.clone(),
            profile_status: self.profile_status,
            download_size_mb: self.download_size_mb,
        }
    }
}

impl Clone for StreamerAction {
    fn clone(&self) -> (r: Self)
        ensures
            r == *self,
    {
        match self {
            StreamerAction::Heartbeat => StreamerAction::Heartbeat,
            StreamerAction::Start(link) => StreamerAction::Start(link.clone()),
            StreamerAction::Stop => StreamerAction::Stop,
            StreamerAction::StopAll => StreamerAction::StopAll,
            StreamerAction::Update => StreamerAction::Update,
        }
    }
}

impl Streamer {
    /// The same user in another state, with nothing downloaded.
    pub fn in_state(&self, state: StreamerState) -> (r: Streamer)
        ensures
            r@ == self@.in_state(state),
    {
        Streamer {
            profile_url: self.profile_url.clone(),
            profile_name: self.profile_name.clone(),
            profile_status: state,
            download_size_mb: 0,
        }
    }
}

impl StreamerUpdate {
    /// The first message of the downloader: it is ready.
    pub fn heartbeat() -> (r: StreamerUpdate)
        ensures
            r@ == (UpdateView { streamer: StreamerView::nobody(), action: ActionView::Heartbeat }),
    {
        StreamerUpdate { streamer: Streamer::default(), action: StreamerAction::Heartbeat }
    }

    /// The last message to the downloader: stop every recording and exit.
    pub fn stop_all() -> (r: StreamerUpdate)
        ensures
            r@ == (UpdateView { streamer: StreamerView::nobody(), action: ActionView::StopAll }),
    {
        StreamerUpdate { streamer: Streamer::default(), action: StreamerAction::StopAll }
    }
}

/// What every user is set to when the downloader shuts down.
#[derive(Clone, Copy, Debug, PartialEq, Eq, Structural)]
pub struct UsersReset {
    pub profile_status: StreamerState,
    pub download_size_mb: u64,
}

/// The request that returns all users to waiting, with nothing downloaded.
pub fn return_users_to_waiting() -> (r: UsersReset)
    ensures
        r == (UsersReset { profile_status: StreamerState::Waiting, download_size_mb: 0 }),
{
    UsersReset { profile_status: StreamerState::Waiting, download_size_mb: 0 }
}

/// The address that says whether users are to be looked up at all.
pub open spec fn statusing_address(backend: Seq<char>) -> Seq<char> {
    "http://"@ + backend + "/statusing"@
}

/// The address of all users.
pub open spec fn users_address(backend: Seq<char>) -> Seq<char> {
    "http://"@ + backend + "/users"@
}

/// The address of the users in a state.
pub open spec fn state_address(backend: Seq<char>, state: Seq<char>) -> Seq<char> {
    users_address(backend) + "/state/"@ + state
}

/// The address of one user.
pub open spec fn user_address(backend: Seq<char>, name: Seq<char>) -> Seq<char> {
    users_address(backend) + "/"@ + name
}

/// The address that says whether users are to be looked up at all.
pub fn statusing_url(backend: &str) -> (r: String)
    ensures
        r@ == statusing_address(backend@),
{
    let mut r = "http://".to_owned();
    r.append(backend);
    r.append("/statusing");
    r
}

/// The address of all users.
pub fn users_url(backend: &str) -> (r: String)
    ensures
        r@ == users_address(backend@),
{
    let mut r = "http://".to_owned();
    r.append(backend);
    r.append("/users");
    r
}

/// The address of the users in a state.
pub fn state_url(backend: &str, state: &str) -> (r: String)
    ensures
        r@ == state_address(backend@, state@),
{
    let mut r = users_url(backend);
    r.append("/state/");
    r.append(state);
    r
}

/// The address of one user.
pub fn user_url(backend: &str, name: &str) -> (r: String)
    ensures
        r@ == user_address(backend@, name@),
{
    let mut r = users_url(backend);
    r.append("/");
    r.append(name);
    r
}

/// The model of a user has the fields of the user.
pub proof fn law_user_model(s: Streamer)
    ensures
        s@.profile_url == s.profile_url@,
        s@.profile_name == s.profile_name@,
        s@.profile_status == s.profile_status,
        s@.download_size_mb == s.download_size_mb,
{
}

/// The model of a message is about the user that the message is about, and asks
/// for what the message asks for.
pub proof fn law_message_model(u: StreamerUpdate)
    ensures
        u@.streamer == u.streamer@,
        u.action is Heartbeat <==> u@.action is Heartbeat,
        u.action is Stop <==> u@.action is Stop,
        u.action is StopAll <==> u@.action is StopAll,
        u.action is Update <==> u@.action is Update,
        u.action is Start <==> u@.action is Start,
        u.action matches StreamerAction::Start(link) ==> u@.action == ActionView::Start(link@),
{
}

/// The model of what a page shows has the link that the page shows.
pub proof fn law_online_model(state: OnlineState)
    ensures
        state is Offline <==> state@ is Offline,
        state matches OnlineState::Online(link) ==> state@ == OnlineView::Online(link@),
{
}

/// The models of a list are the models of its elements, in their order.
pub proof fn law_list_models(users: Seq<Streamer>, messages: Seq<StreamerUpdate>)
    ensures
        streamer_views(users).len() == users.len(),
        forall|i: int| 0 <= i < users.len() ==> #[trigger] streamer_views(users)[i] == users[i]@,
        update_views(messages).len() == messages.len(),
        forall|i: int|
            0 <= i < messages.len() ==> #[trigger] update_views(messages)[i] == messages[i]@,
{
}

/// Nobody is called `N/A`, is found there, is stopped and has downloaded nothing.
pub proof fn law_nobody()
    ensures
        StreamerView::nobody().profile_name == seq!['N', '/', 'A'],
        StreamerView::nobody().profile_url == seq!['N', '/', 'A'],
        StreamerView::nobody().profile_status is Stopped,
        StreamerView::nobody().download_size_mb == 0,
{
    reveal_strlit("N/A");
    assert("N/A"@ =~= seq!['N', '/', 'A']);
}

/// A user in another state keeps the name and the address, and nothing of what
/// was downloaded. The state before does not matter.
pub proof fn law_in_state(s: StreamerView, state: StreamerState)
    ensures
        s.in_state(state).profile_name == s.profile_name,
        s.in_state(state).profile_url == s.profile_url,
        s.in_state(state).profile_status == state,
        s.in_state(state).download_size_mb == 0,
{
}

/// Every address is one of the backend, and names what it is for.
pub proof fn law_addresses(backend: Seq<char>, x: Seq<char>)
    ensures
        statusing_address(backend) == "http://"@ + backend + "/statusing"@,
        users_address(backend) == "http://"@ + backend + "/users"@,
        state_address(backend, x) == "http://"@ + backend + "/users/state/"@ + x,
        user_address(backend, x) == "http://"@ + backend + "/users/"@ + x,
{
    reveal_strlit("/users");
    reveal_strlit("/users/");
    reveal_strlit("/users/state/");
    reveal_strlit("/state/");
    reveal_strlit("/");
    assert("/users"@ + "/state/"@ =~= "/users/state/"@);
    assert("/users"@ + "/"@ =~= "/users/"@);
    assert(state_address(backend, x) =~= "http://"@ + backend + ("/users"@ + "/state/"@) + x);
    assert(user_address(backend, x) =~= "http://"@ + backend + ("/users"@ + "/"@) + x);
}

/// Users of different names have different addresses.
pub proof fn law_user_addresses_differ(backend: Seq<char>, a: Seq<char>, b: Seq<char>)
    requires
        user_address(backend, a) == user_address(backend, b),
    ensures
        a == b,
{
    let n = ("http://"@ + backend + "/users/"@).len() as int;
    law_addresses(backend, a);
    law_addresses(backend, b);
    assert(user_address(backend, a).skip(n) =~= a);
    assert(user_address(backend, b).skip(n) =~= b);
}

} // verus!
