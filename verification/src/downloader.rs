//! One recording: where it is written, which process writes it, and what is
//! reported about it.

use crate::cleanup::{Cleanup, CleanupAction, POLL_MILLIS};
use crate::clock::LocalTime;
use crate::streamer::{
    ActionView, Streamer, StreamerAction, StreamerUpdate, StreamerView, UpdateView,
};
use crate::text::{join_path, joined_path};
use vstd::prelude::*;

verus! {

/// The downloader did not report that it is ready.
#[derive(Debug)]
pub struct HeartbeatError {
    details: String,
}

impl View for HeartbeatError {
    type V = Seq<char>;

    closed spec fn view(&self) -> Seq<char> {
        self.details@
    }
}

impl Default for HeartbeatError {
    fn default() -> (r: Self)
        ensures
            r@ == "No Heartbeat Received!"@,
    {
        Self::new()
    }
}

impl HeartbeatError {
    /// The error, with the text that describes it.
    pub fn new() -> (r: Self)
        ensures
            r@ == "No Heartbeat Received!"@,
    {
        Self { details: "No Heartbeat Received!".to_owned() }
    }

    /// The text that describes the error.
    pub fn to_string(&self) -> (r: String)
        ensures
            r@ == self@,
    {
        self.details.clone()
    }
}

/// A recording could not be controlled.
#[derive(Debug)]
pub struct DownloaderError {
    details: String,
}

impl View for DownloaderError {
    type V = Seq<char>;

    closed spec fn view(&self) -> Seq<char> {
        self.details@
    }
}

impl DownloaderError {
    /// An error with the given description.
    pub fn new(msg: &str) -> (r: Self)
        ensures
            r@ == msg@,
    {
        Self { details: msg.to_owned() }
    }

    /// The text that describes the error.
    pub fn to_string(&self) -> (r: String)
        ensures
            r@ == self@,
    {
        self.details.clone()
    }
}

/// The description of the error that a recording has no process.
pub open spec fn no_process_text() -> Seq<char> {
    "No Active Process for Downloading User"@
}

/// What the file system says about a directory.
#[derive(Clone, Copy, Debug, PartialEq, Eq, Structural)]
pub struct DirectoryInfo {
    pub is_dir: bool,
    pub readonly: bool,
}

impl DirectoryInfo {
    /// Whether files can be written there.
    pub open spec fn usable(self) -> bool {
        self.is_dir && !self.readonly
    }

    /// Whether files can be written there.
    pub fn is_usable(&self) -> (r: bool)
        ensures
            r == self.usable(),
    {
        self.is_dir && !self.readonly
    }
}

/// The directory, if files can be written there.
pub fn sanitize_directory_path(dir: &str, info: DirectoryInfo) -> (r: Option<String>)
    ensures
        r is Some <==> info.usable(),
        r is Some ==> r->0@ == dir@,
{
    if !info.is_dir {
        return None;
    }
    if info.readonly {
        return None;
    }
    Some(dir.to_owned())
}

/// A process that was started: a number that no other one gets, and the one
/// that the operating system gave it.
#[derive(Clone, Copy, Debug, PartialEq, Eq, Structural)]
pub struct ProcHandle {
    pub id: u64,
    pub pid: u32,
}

/// A recording.
#[derive(Debug)]
pub struct DownloaderProc {
    pub m3u8_url: String,
    pub name: String,
    pub download_path: String,
    pub stdout_log_path: String,
    pub stderr_log_path: String,
    pub handle: Option<ProcHandle>,
}

/// The model of a [`DownloaderProc`].
pub struct ProcView {
    pub m3u8_url: Seq<char>,
    pub name: Seq<char>,
    pub download_path: Seq<char>,
    pub stdout_log_path: Seq<char>,
    pub stderr_log_path: Seq<char>,
    pub handle: Option<ProcHandle>,
}

impl View for DownloaderProc {
    type V = ProcView;

    open spec fn view(&self) -> ProcView {
        ProcView {
            m3u8_url: self.m3u8_url@,
            name: self.name@,
            download_path: self.download_path@,
            stdout_log_path: self.stdout_log_path@,
            stderr_log_path: self.stderr_log_path@,
            handle: self.handle,
        }
    }
}

/// How a recording is started: the files that take what the process prints,
/// the program, and its arguments.
#[derive(Debug)]
pub struct StartCommand {
    pub stdout_log: String,
    pub stderr_log: String,
    pub program: String,
    pub args: Vec<String>,
}

/// The model of a [`StartCommand`].
pub struct CommandView {
    pub stdout_log: Seq<char>,
    pub stderr_log: Seq<char>,
    pub program: Seq<char>,
    pub args: Seq<Seq<char>>,
}

/// The models of a list of texts.
pub open spec fn string_views(s: Seq<String>) -> Seq<Seq<char>> {
    s.map_values(|x: String| x@)
}

impl View for StartCommand {
    type V = CommandView;

    open spec fn view(&self) -> CommandView {
        CommandView {
            stdout_log: self.stdout_log@,
            stderr_log: self.stderr_log@,
            program: self.program@,
            args: string_views(self.args@),
        }
    }
}

/// The file that a recording is written to.
pub open spec fn video_file(name: Seq<char>, stamp: Seq<char>) -> Seq<char> {
    name + "-"@ + stamp + ".mp4"@
}

/// The file that the standard output of a recording is written to.
pub open spec fn stdout_file(name: Seq<char>, stamp: Seq<char>) -> Seq<char> {
    name + "-stdout-"@ + stamp + ".log"@
}

/// The file that the standard error of a recording is written to.
pub open spec fn stderr_file(name: Seq<char>, stamp: Seq<char>) -> Seq<char> {
    name + "-stderr-"@ + stamp + ".log"@
}

impl ProcView {
    /// A recording that was not started yet.
    pub open spec fn new(
        url: Seq<char>,
        name: Seq<char>,
        output_dir: Seq<char>,
        log_dir: Seq<char>,
        now: LocalTime,
    ) -> ProcView {
        ProcView {
            m3u8_url: url,
            name: name,
            download_path: joined_path(output_dir, video_file(name, now.stamp_text())),
            stdout_log_path: joined_path(log_dir, stdout_file(name, now.stamp_text())),
            stderr_log_path: joined_path(log_dir, stderr_file(name, now.stamp_text())),
            handle: None,
        }
    }

    /// How the recording is started: ffmpeg copies the stream to the file.
    pub open spec fn command(self) -> CommandView {
        CommandView {
            stdout_log: self.stdout_log_path,
            stderr_log: self.stderr_log_path,
            program: "ffmpeg"@,
            args: seq!["-i"@, self.m3u8_url, "-c"@, "copy"@, self.download_path],
        }
    }

    /// The recording with its process.
    pub open spec fn with_handle(self, handle: ProcHandle) -> ProcView {
        ProcView { handle: Some(handle), ..self }
    }

    /// What is reported about the recording: that it has stopped if its process
    /// has ended, that it goes on if not, and in either case how large its file
    /// is in megabytes, none standing for no file.
    pub open spec fn report(self, polled: Option<i32>, file_len: Option<u64>) -> UpdateView {
        UpdateView {
            streamer: StreamerView {
                profile_name: self.name,
                download_size_mb: match file_len {
                    Some(len) => (len / 1_000_000) as u64,
                    None => 0,
                },
                ..StreamerView::nobody()
            },
            action: if self.handle is Some && polled is Some {
                ActionView::Stop
            } else {
                ActionView::Update
            },
        }
    }
}

/// `name`, `infix`, `stamp` and `suffix`, one behind the other.
fn file_name(name: &str, infix: &str, stamp: &str, suffix: &str) -> (r: String)
    ensures
        r@ == name@ + infix@ + stamp@ + suffix@,
{
    let mut r = name.to_owned();
    r.append(infix);
    r.append(stamp);
    r.append(suffix);
    r
}

impl DownloaderProc {
    /// A recording of a stream, to be written to one directory, with what the
    /// process prints in another.
    pub fn new(
        url: &str,
        name: &str,
        output_dir: &str,
        log_dir: &str,
        output_info: DirectoryInfo,
        log_info: DirectoryInfo,
        now: &LocalTime,
    ) -> (r: DownloaderProc)
        requires
            output_info.usable(),
            log_info.usable(),
            now.valid(),
        ensures
            r@ == ProcView::new(url@, name@, output_dir@, log_dir@, *now),
    {
        let stamp = now.stamp();
        let output_path = sanitize_directory_path(output_dir, output_info).unwrap();
        let log_path = sanitize_directory_path(log_dir, log_info).unwrap();
        let video = file_name(name, "-", stamp.as_str(), ".mp4");
        let stdout_log = file_name(name, "-stdout-", stamp.as_str(), ".log");
        let stderr_log = file_name(name, "-stderr-", stamp.as_str(), ".log");
        DownloaderProc {
            m3u8_url: url.to_owned(),
            name: name.to_owned(),
            download_path: join_path(output_path.as_str(), video.as_str()),
            stdout_log_path: join_path(log_path.as_str(), stdout_log.as_str()),
            stderr_log_path: join_path(log_path.as_str(), stderr_log.as_str()),
            handle: None,
        }
    }

    /// The exit status of the process, from what was seen of it: a recording
    /// without a process has none.
    pub fn get_proc_status(&self, polled: Option<i32>) -> (r: Option<i32>)
        ensures
            r == (if self.handle is Some { polled } else { None }),
    {
        match self.handle {
            Some(_) => polled,
            None => None,
        }
    }

    /// The size of the file in megabytes, from its length, if there is a file.
    pub fn get_size_of_download_mb(&self, file_len: Option<u64>) -> (r: Option<u64>)
        ensures
            match file_len {
                Some(len) => r == Some((len / 1_000_000) as u64),
                None => r is None,
            },
    {
        match file_len {
            Some(len) => Some(len / 1_000_000),
            None => None,
        }
    }

    /// What is reported about the recording.
    pub fn report(&self, polled: Option<i32>, file_len: Option<u64>) -> (r: StreamerUpdate)
        ensures
            r@ == self@.report(polled, file_len),
    {
        let mut streamer = Streamer::default();
        streamer.profile_name = self.name.clone();
        streamer.download_size_mb = self.get_size_of_download_mb(file_len).unwrap_or(0);
        if self.get_proc_status(polled).is_some() {
            StreamerUpdate { streamer, action: StreamerAction::Stop }
        } else {
            StreamerUpdate { streamer, action: StreamerAction::Update }
        }
    }

    /// How the recording is started.
    pub fn start_command(&self) -> (r: StartCommand)
        ensures
            r@ == self@.command(),
    {
        let mut args: Vec<String> = Vec::new();
        args.push("-i".to_owned());
        args.push(self.m3u8_url.clone());
        args.push("-c".to_owned());
        args.push("copy".to_owned());
        args.push(self.download_path.clone());
        assert(string_views(args@) =~= self@.command().args);
        StartCommand {
            stdout_log: self.stdout_log_path.clone(),
            stderr_log: self.stderr_log_path.clone(),
            program: "ffmpeg".to_owned(),
            args,
        }
    }

    /// Takes over the process that was started, or the reason why there is
    /// none.
    pub fn start_downloading<E>(&mut self, started: Result<ProcHandle, E>) -> (r: Result<(), E>)
        ensures
            match started {
                Ok(handle) => r is Ok && final(self)@ == old(self)@.with_handle(handle),
                Err(e) => r == Err::<(), E>(e) && *final(self) == *old(self),
            },
    {
        match started {
            Ok(handle) => {
                self.handle = Some(handle);
                Ok(())
            },
            Err(e) => Err(e),
        }
    }

    /// The process to send an interrupt to.
    pub fn send_sigint(&self) -> (r: Result<i32, DownloaderError>)
        ensures
            match self.handle {
                Some(handle) => r == Ok::<i32, DownloaderError>(handle.pid as i32),
                None => r is Err && r->Err_0@ == no_process_text(),
            },
    {
        match self.handle {
            Some(handle) => Ok(handle.pid as i32),
            None => Err(DownloaderError::new("No Active Process for Downloading User")),
        }
    }

    /// Begins to wait for the end of the process.
    pub fn cleanup_process(&self) -> (r: Result<(Cleanup, CleanupAction), DownloaderError>)
        ensures
            match self.handle {
                Some(_) => r == Ok::<_, DownloaderError>(
                    (Cleanup::initial(), CleanupAction::WaitAndPoll(POLL_MILLIS)),
                ),
                None => r is Err && r->Err_0@ == no_process_text(),
            },
    {
        match self.handle {
            Some(_) => Ok(Cleanup::start()),
            None => Err(DownloaderError::new("No Active Process for Downloading User")),
        }
    }
}

/// A path ends in its file name.
proof fn lemma_path_ends_in_file(dir: Seq<char>, file: Seq<char>, i: int)
    requires
        0 <= i < file.len(),
    ensures
        joined_path(dir, file).len() >= file.len(),
        joined_path(dir, file)[joined_path(dir, file).len() - file.len() + i] == file[i],
{
}

/// The recording, what the process prints to its standard output, and what it
/// prints to its standard error go to three different files.
pub proof fn law_files_differ(
    url: Seq<char>,
    name: Seq<char>,
    output_dir: Seq<char>,
    log_dir: Seq<char>,
    now: LocalTime,
)
    ensures
        ({
            let p = ProcView::new(url, name, output_dir, log_dir, now);
            &&& p.stdout_log_path != p.stderr_log_path
            &&& p.download_path != p.stdout_log_path
            &&& p.download_path != p.stderr_log_path
        }),
{
    let p = ProcView::new(url, name, output_dir, log_dir, now);
    let stamp = now.stamp_text();
    let video = video_file(name, stamp);
    let a = stdout_file(name, stamp);
    let b = stderr_file(name, stamp);
    reveal_strlit("-stdout-");
    reveal_strlit("-stderr-");
    reveal_strlit(".log");
    reveal_strlit(".mp4");
    assert("-stdout-"@[4] == 'o');
    assert("-stderr-"@[4] == 'e');
    let at: int = name.len() + 4int;
    assert(a[at] == 'o');
    assert(b[at] == 'e');
    assert(a[0] == b[0]);
    let shift = p.stdout_log_path.len() - a.len();
    assert(p.stdout_log_path[shift + at] == 'o');
    assert(p.stderr_log_path[shift + at] == 'e');
    assert(video[video.len() - 1] == ".mp4"@[3]);
    assert(a[a.len() - 1] == ".log"@[3]);
    assert(b[b.len() - 1] == ".log"@[3]);
    lemma_path_ends_in_file(output_dir, video, video.len() - 1);
    lemma_path_ends_in_file(log_dir, a, a.len() - 1);
    lemma_path_ends_in_file(log_dir, b, b.len() - 1);
    assert(p.download_path.last() == '4');
    assert(p.stdout_log_path.last() == 'g');
    assert(p.stderr_log_path.last() == 'g');
}

/// Everything that is reported about a recording is a report that a user can
/// be updated by, and names the user whose stream is recorded.
pub proof fn law_recordings_send_reports(p: ProcView, polled: Option<i32>, file_len: Option<u64>)
    ensures
        crate::reports::is_report(p.report(polled, file_len)),
        crate::reports::is_about(p.report(polled, file_len), p.name),
{
}

/// Files can be written to a directory exactly when it is one and not read-only.
pub proof fn law_usable_directories(info: DirectoryInfo)
    ensures
        info.usable() <==> info.is_dir && !info.readonly,
{
}

/// Every file of a recording is named after the user first and the time last,
/// which stands right before the ending, with the kind of log in between.
pub proof fn law_file_names(name: Seq<char>, stamp: Seq<char>)
    ensures
        video_file(name, stamp) == name + seq!['-'] + stamp + seq!['.', 'm', 'p', '4'],
        stdout_file(name, stamp) == name + seq!['-', 's', 't', 'd', 'o', 'u', 't', '-'] + stamp
            + seq!['.', 'l', 'o', 'g'],
        stderr_file(name, stamp) == name + seq!['-', 's', 't', 'd', 'e', 'r', 'r', '-'] + stamp
            + seq!['.', 'l', 'o', 'g'],
{
    reveal_strlit("-");
    reveal_strlit("-stdout-");
    reveal_strlit("-stderr-");
    reveal_strlit(".mp4");
    reveal_strlit(".log");
    assert("-"@ =~= seq!['-']);
    assert("-stdout-"@ =~= seq!['-', 's', 't', 'd', 'o', 'u', 't', '-']);
    assert("-stderr-"@ =~= seq!['-', 's', 't', 'd', 'e', 'r', 'r', '-']);
    assert(".mp4"@ =~= seq!['.', 'm', 'p', '4']);
    assert(".log"@ =~= seq!['.', 'l', 'o', 'g']);
}

/// A new recording is of the stream and the user that are given, and has no
/// process. Its video goes to the one directory and its logs to the other.
pub proof fn law_new_recording(
    url: Seq<char>,
    name: Seq<char>,
    output_dir: Seq<char>,
    log_dir: Seq<char>,
    now: LocalTime,
)
    ensures
        ({
            let p = ProcView::new(url, name, output_dir, log_dir, now);
            &&& p.m3u8_url == url
            &&& p.name == name
            &&& p.handle is None
            &&& p.download_path == joined_path(output_dir, video_file(name, now.stamp_text()))
            &&& p.stdout_log_path == joined_path(log_dir, stdout_file(name, now.stamp_text()))
            &&& p.stderr_log_path == joined_path(log_dir, stderr_file(name, now.stamp_text()))
        }),
{
}

/// The command of a recording reads its stream, copies it, and writes its video,
/// with what it prints going to its two logs. Nothing else of the recording
/// matters for it.
pub proof fn law_command_of_a_recording(p: ProcView)
    ensures
        p.command().program == seq!['f', 'f', 'm', 'p', 'e', 'g'],
        p.command().args.len() == 5,
        p.command().args[0] == seq!['-', 'i'],
        p.command().args[1] == p.m3u8_url,
        p.command().args[2] == seq!['-', 'c'],
        p.command().args[3] == seq!['c', 'o', 'p', 'y'],
        p.command().args[4] == p.download_path,
        p.command().stdout_log == p.stdout_log_path,
        p.command().stderr_log == p.stderr_log_path,
{
    reveal_strlit("ffmpeg");
    reveal_strlit("-i");
    reveal_strlit("-c");
    reveal_strlit("copy");
    assert("ffmpeg"@ =~= seq!['f', 'f', 'm', 'p', 'e', 'g']);
    assert("-i"@ =~= seq!['-', 'i']);
    assert("-c"@ =~= seq!['-', 'c']);
    assert("copy"@ =~= seq!['c', 'o', 'p', 'y']);
}

/// A recording with its process is the same recording.
pub proof fn law_process_of_a_recording(p: ProcView, handle: ProcHandle)
    ensures
        p.with_handle(handle).handle == Some(handle),
        p.with_handle(handle).name == p.name,
        p.with_handle(handle).m3u8_url == p.m3u8_url,
        p.with_handle(handle).download_path == p.download_path,
        p.with_handle(handle).stdout_log_path == p.stdout_log_path,
        p.with_handle(handle).stderr_log_path == p.stderr_log_path,
{
}

/// A report names the user of the recording and how many whole megabytes the file
/// has. It says that the recording has stopped exactly when the process has ended.
pub proof fn law_report_of_a_recording(p: ProcView, polled: Option<i32>, file_len: Option<u64>)
    ensures
        ({
            let u = p.report(polled, file_len);
            let mb = u.streamer.download_size_mb as int;
            &&& u.streamer.profile_name == p.name
            &&& u.streamer.profile_url == StreamerView::nobody().profile_url
            &&& u.streamer.profile_status == StreamerView::nobody().profile_status
            &&& file_len matches Some(len) ==> mb * 1_000_000 <= len < (mb + 1) * 1_000_000
            &&& file_len is None ==> mb == 0
            &&& u.action is Stop <==> p.handle is Some && polled is Some
            &&& u.action is Update <==> p.handle is None || polled is None
        }),
{
}

/// The model of a recording has its fields, and that of a command its own, with
/// all arguments in their order.
pub proof fn law_recording_models(p: DownloaderProc, c: StartCommand)
    ensures
        p@.m3u8_url == p.m3u8_url@,
        p@.name == p.name@,
        p@.download_path == p.download_path@,
        p@.stdout_log_path == p.stdout_log_path@,
        p@.stderr_log_path == p.stderr_log_path@,
        p@.handle == p.handle,
        c@.program == c.program@,
        c@.stdout_log == c.stdout_log@,
        c@.stderr_log == c.stderr_log@,
        c@.args.len() == c.args@.len(),
        forall|i: int| 0 <= i < c.args@.len() ==> #[trigger] c@.args[i] == c.args@[i]@,
{
}

} // verus!
