use vstd::prelude::*;

verus! {

/// One tunnel profile: what to expose and who may start it.
#[derive(Clone, Debug)]
pub struct NgrokCmd {
    pub description: String,
    pub connection_type: String,
    pub port: u32,
    pub permitted_users: Vec<u64>,
    pub howto: Option<String>,
}

/// The whole bot configuration, loaded once at startup.
#[derive(Clone, Debug)]
pub struct Config {
    pub bot_key: String,
    pub ngrok_cmds: Vec<NgrokCmd>,
    pub permitted_chats: Vec<i64>,
}

/// The tunnel profiles, in configuration order.
pub type NgrokCmds = Vec<NgrokCmd>;

} // verus!
