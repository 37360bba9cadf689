use crate::access::{chat_permitted, check_chat_access, check_user_access, user_permitted, Access};
use crate::config::{NgrokCmd, NgrokCmds};
use crate::discovery::TunnelError;
use crate::keyboard::{ButtonQuery, CommandIdx};
use crate::supervisor::{opt_view, Ngrok};
use vstd::prelude::*;
use vstd::string::*;

verus! {

/// Why a menu selection is not acted upon.
#[derive(Clone, Debug)]
pub enum SelectionError {
    /// The selection came from a chat that is not served, or from no chat.
    ChatDeclined,
    /// The button carried no payload, or one that is not a selection.
    UnparseablePayload,
    /// The selected position is past the end of the profile list.
    InvalidSelectionIndex,
    /// The user is not listed by the profile; it carries the profile's description.
    UserDeclined(String),
}

pub open spec fn unparseable_msg() -> Seq<char> {
    "Unknown button data"@
}

pub open spec fn bad_option_msg() -> Seq<char> {
    "Selected option does not exist"@
}

pub open spec fn declined_msg(description: Seq<char>) -> Seq<char> {
    "Access declined for command "@ + description
}

pub open spec fn chat_declined_msg() -> Seq<char> {
    "This chat is not permitted to use the bot"@
}

pub open spec fn selection_error_text(e: SelectionError) -> Seq<char> {
    match e {
        SelectionError::ChatDeclined => chat_declined_msg(),
        SelectionError::UnparseablePayload => unparseable_msg(),
        SelectionError::InvalidSelectionIndex => bad_option_msg(),
        SelectionError::UserDeclined(d) => declined_msg(d@),
    }
}

pub open spec fn tunnel_error_text(e: TunnelError) -> Seq<char> {
    "Can't get the tunnel from ngrok API: "@ + match e {
        TunnelError::NotRunning => "Ngrok was not started!"@,
        TunnelError::Unreachable(m) => m@,
        TunnelError::MalformedResponse => "Can't parse ngrok API response"@,
        TunnelError::NoTunnelsYet => "Error: no tunnels were returned by Ngrok"@,
        TunnelError::InvalidPublicUrl => "Bad URL returned from API"@,
    }
}

pub open spec fn default_howto() -> Seq<char> {
    "Nothing special, just use it"@
}

pub open spec fn howto_text(howto: Option<Seq<char>>) -> Seq<char> {
    match howto {
        Some(h) => h,
        None => default_howto(),
    }
}

/// The message that reports a tunnel that is up.
pub open spec fn obtained_msg(report: Seq<char>, url: Seq<char>, howto: Seq<char>) -> Seq<char> {
    report + "\n\nTunnel: "@ + url + "\n\nHow to use: "@ + howto
}

/// The outcome of a start followed by discovery, as the user reads it.
pub open spec fn start_report_text(
    started: Result<String, String>,
    discovery: Result<String, TunnelError>,
    howto: Option<Seq<char>>,
) -> Seq<char> {
    match started {
        Err(m) => m@,
        Ok(report) => match discovery {
            Ok(url) => obtained_msg(report@, url@, howto_text(howto)),
            Err(e) => tunnel_error_text(e),
        },
    }
}

/// `t` occurs in `s` as a contiguous part.
pub open spec fn contains_text(s: Seq<char>, t: Seq<char>) -> bool {
    exists|k: int| 0 <= k && k + t.len() <= s.len() && #[trigger] s.subrange(k, k + t.len()) == t
}

impl SelectionError {
    /// What the user is told.
    pub fn message(&self) -> (r: String)
        ensures
            r@ == selection_error_text(*self),
    {
        match self {
            SelectionError::ChatDeclined => "This chat is not permitted to use the bot".to_owned(),
            SelectionError::UnparseablePayload => "Unknown button data".to_owned(),
            SelectionError::InvalidSelectionIndex => "Selected option does not exist".to_owned(),
            SelectionError::UserDeclined(d) => {
                let mut m = "Access declined for command ".to_owned();
                m.append(d.as_str());
                m
            },
        }
    }
}

impl TunnelError {
    /// What the user is told.
    pub fn message(&self) -> (r: String)
        ensures
            r@ == tunnel_error_text(*self),
    {
        let mut m = "Can't get the tunnel from ngrok API: ".to_owned();
        match self {
            TunnelError::NotRunning => m.append("Ngrok was not started!"),
            TunnelError::Unreachable(e) => m.append(e.as_str()),
            TunnelError::MalformedResponse => m.append("Can't parse ngrok API response"),
            TunnelError::NoTunnelsYet => m.append("Error: no tunnels were returned by Ngrok"),
            TunnelError::InvalidPublicUrl => m.append("Bad URL returned from API"),
        }
        m
    }
}

/// The reply to a chat that the chat gate turned away.
pub fn chat_declined_message() -> (r: String)
    ensures
        r@ == chat_declined_msg(),
{
    "This chat is not permitted to use the bot".to_owned()
}

/// A selection is served only from a known chat that the chat gate admits.
pub open spec fn selection_chat_ok(chat_id: Option<i64>, permitted_chats: Seq<i64>) -> bool {
    match chat_id {
        Some(c) => chat_permitted(c, permitted_chats),
        None => false,
    }
}

/// Applies the chat gate to a menu selection, resolves it against the
/// profile list and re-applies the command gate; gives the position of the
/// profile to start.
pub fn handle_selection(
    chat_id: Option<i64>,
    permitted_chats: &[i64],
    user_id: u64,
    query: Option<ButtonQuery>,
    ngrok_cmds: &NgrokCmds,
) -> (r: Result<CommandIdx, SelectionError>)
    ensures
        !selection_chat_ok(chat_id, permitted_chats@) ==> r
            == Err::<CommandIdx, SelectionError>(SelectionError::ChatDeclined),
        selection_chat_ok(chat_id, permitted_chats@) && query is None
            ==> r == Err::<CommandIdx, SelectionError>(SelectionError::UnparseablePayload),
        selection_chat_ok(chat_id, permitted_chats@) ==> (
        query matches Some(ButtonQuery::Ngrok { cmd_idx }) ==> {
            &&& cmd_idx >= ngrok_cmds@.len() ==> r == Err::<CommandIdx, SelectionError>(SelectionError::InvalidSelectionIndex)
            &&& cmd_idx < ngrok_cmds@.len() && user_permitted(user_id, ngrok_cmds@[cmd_idx as int])
                ==> r == Ok::<CommandIdx, SelectionError>(cmd_idx)
            &&& cmd_idx < ngrok_cmds@.len() && !user_permitted(user_id, ngrok_cmds@[cmd_idx as int])
                ==> (r matches Err(SelectionError::UserDeclined(d)) && d@ == ngrok_cmds@[cmd_idx as int].description@)
        }),
{
    match chat_id {
        None => {
            return Err(SelectionError::ChatDeclined);
        },
        Some(c) => {
            if let Access::Declined = check_chat_access(c, permitted_chats) {
                return Err(SelectionError::ChatDeclined);
            }
        },
    }
    match query {
        None => Err(SelectionError::UnparseablePayload),
        Some(ButtonQuery::Ngrok { cmd_idx }) => {
            if cmd_idx >= ngrok_cmds.len() {
                return Err(SelectionError::InvalidSelectionIndex);
            }
            let cmd = &ngrok_cmds[cmd_idx];
            match check_user_access(user_id, cmd) {
                Access::Granted => Ok(cmd_idx),
                Access::Declined => Err(SelectionError::UserDeclined(cmd.description.clone())),
            }
        },
    }
}

/// Turns the outcome of a start and of the discovery after it into the
/// message for the user. Where either failed the fresh process is killed,
/// so that no unreachable tunnel stays up.
pub fn start_report(
    ngrok: &mut Ngrok,
    cmd: &NgrokCmd,
    started: Result<String, String>,
    discovery: Result<String, TunnelError>,
) -> (r: String)
    ensures
        r@ == start_report_text(started, discovery, opt_view(cmd.howto)),
        started is Ok && discovery is Ok ==> *final(ngrok) == *old(ngrok),
        !(started is Ok && discovery is Ok) ==> !final(ngrok).is_running(),
{
    match started {
        Err(m) => {
            ngrok.kill();
            m
        },
        Ok(report) => match discovery {
            Ok(url) => {
                let mut m = report;
                m.append("\n\nTunnel: ");
                m.append(url.as_str());
                m.append("\n\nHow to use: ");
                match &cmd.howto {
                    Some(h) => m.append(h.as_str()),
                    None => m.append("Nothing special, just use it"),
                }
                m
            },
            Err(e) => {
                ngrok.kill();
                e.message()
            },
        },
    }
}

/// A tunnel that came up is reported with its public address and with the
/// profile's usage note, or the default note where the profile has none.
pub proof fn lemma_report_names_url_and_howto(report: String, url: String, howto: Option<Seq<char>>)
    ensures
        contains_text(start_report_text(Ok(report), Ok(url), howto), url@),
        contains_text(start_report_text(Ok(report), Ok(url), howto), howto_text(howto)),
{
    let s = start_report_text(Ok(report), Ok(url), howto);
    let head = report@ + "\n\nTunnel: "@;
    let mid = head + url@ + "\n\nHow to use: "@;
    assert(s.subrange(head.len() as int, head.len() + url@.len() as int) =~= url@);
    assert(s.subrange(mid.len() as int, mid.len() + howto_text(howto).len() as int) =~= howto_text(howto));
}

} // verus!
