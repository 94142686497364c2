//! What the page of a user says about the stream of that user.

use crate::streamer::{OnlineState, OnlineView};
use crate::text::{
    ends_with, has_suffix, law_quoted_text, law_unquoted_has_no_quote, strip_quotes, unquoted,
};
use vstd::prelude::*;

verus! {

/// Where a page carries the dossier of a room: a quoted JSON text that is
/// assigned to `window.initialRoomDossier`.
pub const ROOM_PATTERN: &'static str =
    "window\\.initialRoomDossier\\s*=\\s*(\"(?:\\\\.|[^\\\\\"])*\")";

/// The member of the dossier that holds the link to the stream.
pub const SOURCE_KEY: &'static str = "hls_source";

/// Why a page could not be read.
#[derive(Clone, Copy, Debug, PartialEq, Eq, Structural)]
pub enum PageError {
    /// The page carries no dossier.
    NoDossier,
    /// What the page carries is not JSON.
    InvalidJson,
    /// What the page carries is JSON, but not a text.
    NotText,
    /// The text is not JSON itself.
    InvalidDossier,
    /// The dossier names no source.
    NoSource,
}

impl PageError {
    /// What is said about the error.
    pub open spec fn message_text(self) -> Seq<char> {
        match self {
            PageError::NoDossier => "No Valid Regex Found"@,
            PageError::InvalidJson => "Invalid JSON Object Received"@,
            PageError::NotText => "JSON Object Is Not A Text"@,
            PageError::InvalidDossier => "Invalid Dossier JSON"@,
            PageError::NoSource => "No Source In Dossier"@,
        }
    }

    /// What is said about the error.
    pub fn message(&self) -> (r: String)
        ensures
            r@ == self.message_text(),
    {
        match self {
            PageError::NoDossier => "No Valid Regex Found".to_owned(),
            PageError::InvalidJson => "Invalid JSON Object Received".to_owned(),
            PageError::NotText => "JSON Object Is Not A Text".to_owned(),
            PageError::InvalidDossier => "Invalid Dossier JSON".to_owned(),
            PageError::NoSource => "No Source In Dossier".to_owned(),
        }
    }
}

/// `regex::Error`, an error of which only the occurrence matters here.
#[verifier::external_type_specification]
#[verifier::external_body]
pub struct ExRegexError(regex::Error);

/// `serde_json::Error`, an error of which only the occurrence matters here.
#[verifier::external_type_specification]
#[verifier::external_body]
pub struct ExJsonError(serde_json::Error);

/// What the first group of a pattern captures in a text: nothing where the
/// pattern does not match or the group took no part in the match.
pub uninterp spec fn regex_first_group(pattern: Seq<char>, text: Seq<char>) -> Option<Seq<char>>;

/// The string that a JSON text stands for: nothing at the outer level where
/// the text is not JSON, nothing at the inner level where it is another value.
pub uninterp spec fn json_string(text: Seq<char>) -> Option<Option<Seq<char>>>;

/// The JSON text of a member of the object that a JSON text stands for:
/// nothing at the outer level where the text is not JSON, nothing at the inner
/// level where it is no object or has no such member.
pub uninterp spec fn json_member(text: Seq<char>, key: Seq<char>) -> Option<Option<Seq<char>>>;

/// The model of an optional text.
pub open spec fn text_view(s: Option<String>) -> Option<Seq<char>> {
    match s {
        Some(t) => Some(t@),
        None => None,
    }
}

/// The model of the outcome of an outside call.
pub open spec fn outcome_view<E>(r: Result<Option<String>, E>) -> Option<Option<Seq<char>>> {
    match r {
        Ok(s) => Some(text_view(s)),
        Err(_) => None,
    }
}

/// `regex::Regex::new`, `Regex::captures` and `Captures::get(1)`: the text of
/// the first group in the leftmost match, which depends on the pattern and the
/// text alone. The pattern for the dossier compiles: it is made of literals,
/// escapes, classes, groups and repetitions of the documented syntax, and far
/// below the limit on the size of a compiled pattern.
#[verifier::external_body]
fn first_group(pattern: &str, text: &str) -> (r: Result<Option<String>, regex::Error>)
    requires
        pattern@ == ROOM_PATTERN@,
    ensures
        r is Ok,
        outcome_view(r) == Some(regex_first_group(pattern@, text@)),
{
    let regex = regex::Regex::new(pattern)?;
    match regex.captures(text) {
        Some(captures) => match captures.get(1) {
            Some(group) => Ok(Some(group.as_str().to_owned())),
            None => Ok(None),
        },
        None => Ok(None),
    }
}

/// `serde_json::from_str` into a `serde_json::Value`, and `Value::as_str`: the
/// string that the text stands for, which depends on the text alone.
#[verifier::external_body]
fn parse_json_string(text: &str) -> (r: Result<Option<String>, serde_json::Error>)
    ensures
        outcome_view(r) == json_string(text@),
{
    let value: serde_json::Value = serde_json::from_str(text)?;
    match value.as_str() {
        Some(s) => Ok(Some(s.to_owned())),
        None => Ok(None),
    }
}

/// `serde_json::from_str` into a `serde_json::Value`, `Value::get` with a key,
/// and the compact JSON text that `Value::to_string` gives of the member: it
/// depends on the text and the key alone.
#[verifier::external_body]
fn parse_json_member(text: &str, key: &str) -> (r: Result<Option<String>, serde_json::Error>)
    ensures
        outcome_view(r) == json_member(text@, key@),
{
    let value: serde_json::Value = serde_json::from_str(text)?;
    match value.get(key) {
        Some(member) => Ok(Some(member.to_string())),
        None => Ok(None),
    }
}

/// What a source says: online if it is, quotes aside, a link to a playlist.
pub open spec fn state_of_source(source: Seq<char>) -> OnlineView {
    if has_suffix(unquoted(source), "m3u8"@) {
        OnlineView::Online(unquoted(source))
    } else {
        OnlineView::Offline
    }
}

/// One step into a page: what was found there, or which error it is that it
/// was not found.
pub open spec fn found_or<T>(
    found: Option<Option<T>>,
    invalid: PageError,
    missing: PageError,
) -> Result<T, PageError> {
    match found {
        Some(Some(t)) => Ok(t),
        Some(None) => Err(missing),
        None => Err(invalid),
    }
}

/// The source that a page names, as JSON text: the dossier that the page carries
/// is a quoted text, which holds the source as a member.
pub open spec fn page_source(html: Seq<char>) -> Result<Seq<char>, PageError> {
    match regex_first_group(ROOM_PATTERN@, html) {
        None => Err(PageError::NoDossier),
        Some(quoted) => match found_or(
            json_string(quoted),
            PageError::InvalidJson,
            PageError::NotText,
        ) {
            Err(e) => Err(e),
            Ok(dossier) => found_or(
                json_member(dossier, SOURCE_KEY@),
                PageError::InvalidDossier,
                PageError::NoSource,
            ),
        },
    }
}

/// What a page says about the stream.
pub open spec fn page_state(html: Seq<char>) -> Result<OnlineView, PageError> {
    match page_source(html) {
        Ok(source) => Ok(state_of_source(source)),
        Err(e) => Err(e),
    }
}

/// What a source says about the stream.
pub fn judge_source(source: &str) -> (r: OnlineState)
    ensures
        r@ == state_of_source(source@),
{
    let link = strip_quotes(source);
    if ends_with(link.as_str(), "m3u8") {
        OnlineState::Online(link)
    } else {
        OnlineState::Offline
    }
}

/// One step into a page: what was found there, or which error it is that it
/// was not found.
pub fn require_found<E>(
    found: Result<Option<String>, E>,
    invalid: PageError,
    missing: PageError,
) -> (r: Result<String, PageError>)
    ensures
        match r {
            Ok(s) => found_or(outcome_view(found), invalid, missing) == Ok::<_, PageError>(s@),
            Err(e) => found_or(outcome_view(found), invalid, missing) == Err::<
                Seq<char>,
                PageError,
            >(e),
        },
{
    match found {
        Ok(Some(s)) => Ok(s),
        Ok(None) => Err(missing),
        Err(_) => Err(invalid),
    }
}

/// Reads the source that a page names.
pub fn obtain_source(html: &str) -> (r: Result<String, PageError>)
    ensures
        match r {
            Ok(source) => page_source(html@) == Ok::<_, PageError>(source@),
            Err(e) => page_source(html@) == Err::<Seq<char>, PageError>(e),
        },
{
    let quoted = match first_group(ROOM_PATTERN, html) {
        Ok(Some(s)) => s,
        _ => {
            return Err(PageError::NoDossier);
        },
    };
    match require_found(
        parse_json_string(quoted.as_str()),
        PageError::InvalidJson,
        PageError::NotText,
    ) {
        Ok(dossier) => require_found(
            parse_json_member(dossier.as_str(), SOURCE_KEY),
            PageError::InvalidDossier,
            PageError::NoSource,
        ),
        Err(e) => Err(e),
    }
}

/// Reads the page of a user.
pub fn obtain_user_status(html: &str) -> (r: Result<OnlineState, PageError>)
    ensures
        match r {
            Ok(state) => page_state(html@) == Ok::<_, PageError>(state@),
            Err(e) => page_state(html@) == Err::<OnlineView, PageError>(e),
        },
{
    match obtain_source(html) {
        Ok(source) => Ok(judge_source(source.as_str())),
        Err(e) => Err(e),
    }
}

/// A link under which a user is online ends in `m3u8`, is longer than two
/// characters and carries no quote.
pub proof fn law_online_link(source: Seq<char>)
    ensures
        match state_of_source(source) {
            OnlineView::Online(link) => {
                &&& has_suffix(link, "m3u8"@)
                &&& link.len() > 2
                &&& !link.contains('"')
            },
            OnlineView::Offline => !has_suffix(unquoted(source), "m3u8"@),
        },
{
    reveal_strlit("m3u8");
    law_unquoted_has_no_quote(source);
}

/// A user is online exactly when the source, its quotes taken out, ends in
/// `m3u8`, and then under the whole of it: nothing but quotes is left out.
pub proof fn law_link_is_the_whole_source(source: Seq<char>)
    ensures
        state_of_source(source) is Online <==> {
            let link = unquoted(source);
            let n = link.len() as int;
            n >= 4 && link[n - 4] == 'm' && link[n - 3] == '3' && link[n - 2] == 'u' && link[n - 1]
                == '8'
        },
        state_of_source(source) matches OnlineView::Online(link) ==> link == unquoted(source),
{
    reveal_strlit("m3u8");
    let link = unquoted(source);
    let n = link.len() as int;
    let tail = link.skip(n - 4);
    if n >= 4 {
        assert(tail[0] == link[n - 4] && tail[1] == link[n - 3] && tail[2] == link[n - 2]
            && tail[3] == link[n - 1]);
        if link[n - 4] == 'm' && link[n - 3] == '3' && link[n - 2] == 'u' && link[n - 1] == '8' {
            assert(tail =~= "m3u8"@);
        }
    }
}

/// A quoted link to a playlist is the link, whatever comes before its end.
pub proof fn law_quoted_playlist_is_online(start: Seq<char>)
    requires
        !start.contains('"'),
    ensures
        ({
            let link = start + seq!['m', '3', 'u', '8'];
            state_of_source(seq!['"'] + link + seq!['"']) == OnlineView::Online(link)
        }),
{
    let link = start + seq!['m', '3', 'u', '8'];
    assert forall|i: int| 0 <= i < link.len() implies link[i] != '"' by {
        if i < start.len() {
            assert(start.contains(start[i]));
        }
    }
    law_quoted_text(link);
    law_link_is_the_whole_source(seq!['"'] + link + seq!['"']);
}

/// What is found in a page: the dossier by the pattern in the page, the text that
/// the dossier stands for, and the source by its key in that text. Where one is
/// not there, the error says which.
pub proof fn law_source_of_page(html: Seq<char>)
    ensures
        ({
            let quoted = regex_first_group(ROOM_PATTERN@, html);
            let text = json_string(quoted->0);
            let member = json_member(text->0->0, "hls_source"@);
            &&& quoted is None <==> page_source(html) == Err::<Seq<char>, _>(PageError::NoDossier)
            &&& quoted is Some && text is None <==> page_source(html) == Err::<Seq<char>, _>(
                PageError::InvalidJson,
            )
            &&& quoted is Some && text is Some && text->0 is None <==> page_source(html) == Err::<
                Seq<char>,
                _,
            >(PageError::NotText)
            &&& quoted is Some && text is Some && text->0 is Some && member is None
                <==> page_source(html) == Err::<Seq<char>, _>(PageError::InvalidDossier)
            &&& quoted is Some && text is Some && text->0 is Some && member is Some && member->0
                is None <==> page_source(html) == Err::<Seq<char>, _>(PageError::NoSource)
            &&& quoted is Some && text is Some && text->0 is Some && member is Some && member->0
                is Some ==> page_source(html) == Ok::<_, PageError>(member->0->0)
        }),
{
}

/// What a page says is what its source says. Two pages that name one source say
/// the same.
pub proof fn law_source_alone_decides(a: Seq<char>, b: Seq<char>)
    ensures
        page_source(a) matches Ok(source) ==> page_state(a) == Ok::<_, PageError>(
            state_of_source(source),
        ),
        page_source(a) matches Err(e) ==> page_state(a) == Err::<OnlineView, _>(e),
        page_source(a) == page_source(b) ==> page_state(a) == page_state(b),
{
}

/// A step into a page gives what was found there, and two different errors where
/// there was nothing to look into and where nothing was found.
pub proof fn law_steps<T>(found: T, invalid: PageError, missing: PageError)
    ensures
        found_or(Some(Some(found)), invalid, missing) == Ok::<_, PageError>(found),
        found_or(Some(None::<T>), invalid, missing) == Err::<T, _>(missing),
        found_or(None::<Option<T>>, invalid, missing) == Err::<T, _>(invalid),
{
}

/// The model of an outcome has the text that was found, and tells an error from
/// nothing found.
pub proof fn law_outcome_model<E>(s: String, e: E)
    ensures
        outcome_view(Ok::<_, E>(Some(s))) == Some(Some(s@)),
        outcome_view(Ok::<Option<String>, E>(None)) == Some(None::<Seq<char>>),
        outcome_view(Err::<Option<String>, E>(e)) == None::<Option<Seq<char>>>,
        text_view(Some(s)) == Some(s@),
        text_view(None) == None::<Seq<char>>,
{
}

} // verus!
