use vstd::prelude::*;

verus! {

/// Position of a tunnel profile in the configuration list.
pub type CommandIdx = usize;

/// What a menu button carries back when pressed.
#[derive(Clone, Copy, Debug, PartialEq, Eq)]
pub enum ButtonQuery {
    Ngrok { cmd_idx: CommandIdx },
}

/// A menu to show under a message.
#[derive(Clone, Debug)]
pub enum Keyboard {
    /// The two buttons `/ngrok` and `/killngrok`.
    Startup,
    /// One button per entry: the profile's index and its description.
    NgrokCmds(Vec<(CommandIdx, String)>),
}

/// The entries of a profile menu as plain values.
pub open spec fn entries_view(v: Seq<(CommandIdx, String)>) -> Seq<(CommandIdx, Seq<char>)> {
    v.map_values(|e: (CommandIdx, String)| (e.0, e.1@))
}

} // verus!
