use crate::access::{check_user_access, user_permitted, Access};
use crate::config::{NgrokCmd, NgrokCmds};
use crate::keyboard::{entries_view, CommandIdx, Keyboard};
use crate::supervisor::Ngrok;
use vstd::prelude::*;
use vstd::string::*;

verus! {

/// The bot's text commands.
#[derive(Clone, Copy, Debug, PartialEq, Eq)]
pub enum Command {
    Start,
    Ngrok,
    KillNgrok,
    Help,
}

/// The commands as the user types them, comma separated.
pub open spec fn commands_list() -> Seq<char> {
    "/start"@ + ", "@ + "/ngrok"@ + ", "@ + "/killngrok"@ + ", "@ + "/help"@
}

impl Command {
    pub open spec fn spec_name(self) -> Seq<char> {
        match self {
            Command::Start => "/start"@,
            Command::Ngrok => "/ngrok"@,
            Command::KillNgrok => "/killngrok"@,
            Command::Help => "/help"@,
        }
    }

    /// The command as the user types it.
    pub fn name(&self) -> (r: &'static str)
        ensures
            r@ == self.spec_name(),
    {
        match self {
            Command::Start => "/start",
            Command::Ngrok => "/ngrok",
            Command::KillNgrok => "/killngrok",
            Command::Help => "/help",
        }
    }

    pub fn gather_commands_as_str() -> (r: String)
        ensures
            r@ == commands_list(),
    {
        let mut s = Command::Start.name().to_owned();
        s.append(", ");
        s.append(Command::Ngrok.name());
        s.append(", ");
        s.append(Command::KillNgrok.name());
        s.append(", ");
        s.append(Command::Help.name());
        s
    }
}

/// A reply: a message, with or without a menu.
#[derive(Clone, Debug)]
pub enum CommandResponse {
    WithMarkup { msg: String, keyboard: Keyboard },
    WithoutMarkup { msg: String },
}

pub open spec fn start_msg() -> Seq<char> {
    "🤖 Press /ngrok"@
}

pub open spec fn stranger_msg() -> Seq<char> {
    "🤖 I don't know who the fuck are you. Sorry, mate. Don't speak to strangers."@
}

pub open spec fn no_commands_msg() -> Seq<char> {
    "🤖 No commands for you, pal. Sorry. Ask permission from chat owner, maybe?"@
}

pub open spec fn choose_msg() -> Seq<char> {
    "🤖 Choose ngrok config to start expose target:"@
}

pub open spec fn killed_msg() -> Seq<char> {
    "🫡 Ngrok killed!"@
}

pub open spec fn already_dead_msg() -> Seq<char> {
    "💀 Ngrok actually dead..."@
}

pub open spec fn help_msg() -> Seq<char> {
    "🤖 Available commands:\n"@ + commands_list() + "."@
}

pub open spec fn unknown_command_msg() -> Seq<char> {
    "💅🏻 This command does not exist, you dummy!\n\nHere are available commands:\n"@ + commands_list() + "."@
}

/// The menu entries a user sees: the profiles that list them, with their
/// positions, in configuration order.
pub open spec fn visible_profiles(user_id: u64, cmds: Seq<NgrokCmd>) -> Seq<(CommandIdx, Seq<char>)>
    decreases cmds.len(),
{
    if cmds.len() == 0 {
        seq![]
    } else {
        let prev = visible_profiles(user_id, cmds.drop_last());
        if user_permitted(user_id, cmds.last()) {
            prev.push(((cmds.len() - 1) as CommandIdx, cmds.last().description@))
        } else {
            prev
        }
    }
}

/// With two profiles, one that lists a user and one that does not, the
/// user's menu holds exactly the first, under its own position, whichever
/// order the two stand in.
pub proof fn lemma_menu_shows_only_permitted(user_id: u64, granted: NgrokCmd, denied: NgrokCmd)
    requires
        user_permitted(user_id, granted),
        !user_permitted(user_id, denied),
    ensures
        visible_profiles(user_id, seq![granted, denied]) == seq![(0 as CommandIdx, granted.description@)],
        visible_profiles(user_id, seq![denied, granted]) == seq![(1 as CommandIdx, granted.description@)],
{
    reveal_with_fuel(visible_profiles, 3);
    let a = seq![granted, denied];
    let b = seq![denied, granted];
    assert(a.drop_last() =~= seq![granted]);
    assert(seq![granted].drop_last() =~= Seq::<NgrokCmd>::empty());
    assert(b.drop_last() =~= seq![denied]);
    assert(seq![denied].drop_last() =~= Seq::<NgrokCmd>::empty());
    assert(seq![granted].last() == granted);
    assert(seq![denied].last() == denied);
    assert(a.last() == denied);
    assert(b.last() == granted);
    assert(visible_profiles(user_id, seq![granted]) =~= seq![(0 as CommandIdx, granted.description@)]);
    assert(visible_profiles(user_id, seq![denied]) =~= Seq::<(CommandIdx, Seq<char>)>::empty());
    assert(visible_profiles(user_id, b) =~= seq![(1 as CommandIdx, granted.description@)]);
}

pub fn start_cmd() -> (r: CommandResponse)
    ensures
        r matches CommandResponse::WithMarkup { msg, keyboard: Keyboard::Startup } && msg@ == start_msg(),
{
    CommandResponse::WithMarkup { msg: "🤖 Press /ngrok".to_owned(), keyboard: Keyboard::Startup }
}

/// The menu of the profiles that a user may start; profiles that do not list
/// the user are left out.
pub fn list_ngrok_cmd(user: Option<u64>, ngrok_cmds: &NgrokCmds) -> (r: CommandResponse)
    ensures
        user is None ==> (r matches CommandResponse::WithoutMarkup { msg } && msg@ == stranger_msg()),
        user is Some && visible_profiles(user->Some_0, ngrok_cmds@).len() == 0 ==> (
            r matches CommandResponse::WithoutMarkup { msg } && msg@ == no_commands_msg()),
        user is Some && visible_profiles(user->Some_0, ngrok_cmds@).len() > 0 ==> (
            r matches CommandResponse::WithMarkup { msg, keyboard: Keyboard::NgrokCmds(v) }
            && msg@ == choose_msg() && entries_view(v@) == visible_profiles(user->Some_0, ngrok_cmds@)),
{
    match user {
        None => CommandResponse::WithoutMarkup {
            msg: "🤖 I don't know who the fuck are you. Sorry, mate. Don't speak to strangers.".to_owned(),
        },
        Some(user_id) => {
            let mut allowed: Vec<(CommandIdx, String)> = Vec::new();
            let mut i: usize = 0;
            while i < ngrok_cmds.len()
                invariant
                    i <= ngrok_cmds@.len(),
                    entries_view(allowed@) == visible_profiles(user_id, ngrok_cmds@.subrange(0, i as int)),
                decreases ngrok_cmds@.len() - i,
            {
                let cmd = &ngrok_cmds[i];
                proof {
                    let pre = ngrok_cmds@.subrange(0, i as int + 1);
                    assert(pre.drop_last() =~= ngrok_cmds@.subrange(0, i as int));
                    assert(pre.last() == ngrok_cmds@[i as int]);
                }
                match check_user_access(user_id, cmd) {
                    Access::Granted => {
                        let entry = (i, cmd.description.clone());
                        allowed.push(entry);
                        assert(entries_view(allowed@) =~= visible_profiles(
                            user_id,
                            ngrok_cmds@.subrange(0, i as int + 1),
                        ));
                    },
                    Access::Declined => {},
                }
                i = i + 1;
            }
            assert(ngrok_cmds@.subrange(0, ngrok_cmds@.len() as int) =~= ngrok_cmds@);
            if allowed.len() == 0 {
                CommandResponse::WithoutMarkup {
                    msg: "🤖 No commands for you, pal. Sorry. Ask permission from chat owner, maybe?".to_owned(),
                }
            } else {
                CommandResponse::WithMarkup {
                    msg: "🤖 Choose ngrok config to start expose target:".to_owned(),
                    keyboard: Keyboard::NgrokCmds(allowed),
                }
            }
        },
    }
}

/// Stops the tunnel; where none runs this is a no-op with its own reply.
pub fn kill_ngrok_cmd(ngrok: &mut Ngrok) -> (r: CommandResponse)
    ensures
        !final(ngrok).is_running(),
        old(ngrok).is_running() ==> (r matches CommandResponse::WithoutMarkup { msg } && msg@ == killed_msg()),
        !old(ngrok).is_running() ==> (r matches CommandResponse::WithoutMarkup { msg } && msg@ == already_dead_msg()),
{
    if ngrok.is_run() {
        ngrok.kill();
        CommandResponse::WithoutMarkup { msg: "🫡 Ngrok killed!".to_owned() }
    } else {
        CommandResponse::WithoutMarkup { msg: "💀 Ngrok actually dead...".to_owned() }
    }
}

pub fn help_cmd() -> (r: CommandResponse)
    ensures
        r matches CommandResponse::WithoutMarkup { msg } && msg@ == help_msg(),
{
    let mut m = "🤖 Available commands:\n".to_owned();
    let list = Command::gather_commands_as_str();
    m.append(list.as_str());
    m.append(".");
    CommandResponse::WithoutMarkup { msg: m }
}

pub fn error_cmd() -> (r: CommandResponse)
    ensures
        r matches CommandResponse::WithoutMarkup { msg } && msg@ == unknown_command_msg(),
{
    let mut m = "💅🏻 This command does not exist, you dummy!\n\nHere are available commands:\n".to_owned();
    let list = Command::gather_commands_as_str();
    m.append(list.as_str());
    m.append(".");
    CommandResponse::WithoutMarkup { msg: m }
}

} // verus!
