use crate::config::NgrokCmd;
use vstd::prelude::*;

verus! {

/// The outcome of an access gate.
#[derive(Clone, Copy, Debug, PartialEq, Eq)]
pub enum Access {
    Granted,
    Declined,
}

/// The command gate: a user may start a profile iff the profile lists them.
pub open spec fn user_permitted(user_id: u64, cmd: NgrokCmd) -> bool {
    cmd.permitted_users@.contains(user_id)
}

/// The chat gate: a chat is served iff the allow-list holds it.
pub open spec fn chat_permitted(chat_id: i64, permitted_chats: Seq<i64>) -> bool {
    permitted_chats.contains(chat_id)
}

pub fn check_user_access(user_id: u64, cmd: &NgrokCmd) -> (r: Access)
    ensures
        (r == Access::Granted) == user_permitted(user_id, *cmd),
{
    let mut i: usize = 0;
    while i < cmd.permitted_users.len()
        invariant
            i <= cmd.permitted_users@.len(),
            forall|j: int| 0 <= j < i ==> cmd.permitted_users@[j] != user_id,
        decreases cmd.permitted_users@.len() - i,
    {
        if cmd.permitted_users[i] == user_id {
            assert(cmd.permitted_users@[i as int] == user_id);
            return Access::Granted;
        }
        i = i + 1;
    }
    Access::Declined
}

pub fn check_chat_access(chat_id: i64, permitted_chats: &[i64]) -> (r: Access)
    ensures
        (r == Access::Granted) == chat_permitted(chat_id, permitted_chats@),
{
    let mut i: usize = 0;
    while i < permitted_chats.len()
        invariant
            i <= permitted_chats@.len(),
            forall|j: int| 0 <= j < i ==> permitted_chats@[j] != chat_id,
        decreases permitted_chats@.len() - i,
    {
        if permitted_chats[i] == chat_id {
            assert(permitted_chats@[i as int] == chat_id);
            return Access::Granted;
        }
        i = i + 1;
    }
    Access::Declined
}

} // verus!
