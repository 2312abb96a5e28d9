//! The playback commands a client may send, and the latest-value cell that
//! carries them from the inbound pump to the dispatcher.

use crate::text::same_text;
use vstd::prelude::*;

verus! {

/// A playback command.
#[derive(Debug, Clone, Copy, PartialEq, Eq, Structural)]
pub enum Command {
    Toggle,
    Skip,
    Back,
}

/// The operation that the host's media interface is asked to perform.
#[derive(Debug, Clone, Copy, PartialEq, Eq, Structural)]
pub enum ProviderCall {
    TogglePlayPause,
    SkipNext,
    SkipPrevious,
}

/// The command that an inbound text frame stands for, if any. The three
/// words are matched exactly; every other text means nothing.
pub open spec fn decode_text(text: Seq<char>) -> Option<Command> {
    if text == "toggle"@ {
        Some(Command::Toggle)
    } else if text == "skip"@ {
        Some(Command::Skip)
    } else if text == "back"@ {
        Some(Command::Back)
    } else {
        None
    }
}

/// The last command among a burst of inbound texts, if any of them is one.
pub open spec fn last_command(texts: Seq<Seq<char>>) -> Option<Command>
    decreases texts.len(),
{
    if texts.len() == 0 {
        None
    } else {
        match decode_text(texts.last()) {
            Some(command) => Some(command),
            None => last_command(texts.drop_last()),
        }
    }
}

impl Command {
    /// The provider operation that carries this command out.
    pub open spec fn spec_provider_call(self) -> ProviderCall {
        match self {
            Command::Toggle => ProviderCall::TogglePlayPause,
            Command::Skip => ProviderCall::SkipNext,
            Command::Back => ProviderCall::SkipPrevious,
        }
    }

    /// Decodes the text of an inbound frame.
    pub fn decode(text: &str) -> (r: Option<Command>)
        ensures
            r == decode_text(text@),
    {
        if same_text(text, "toggle") {
            Some(Command::Toggle)
        } else if same_text(text, "skip") {
            Some(Command::Skip)
        } else if same_text(text, "back") {
            Some(Command::Back)
        } else {
            None
        }
    }

    /// The provider operation that carries this command out.
    #[verifier::when_used_as_spec(spec_provider_call)]
    pub fn provider_call(self) -> (r: ProviderCall)
        ensures
            r == self.spec_provider_call(),
    {
        match self {
            Command::Toggle => ProviderCall::TogglePlayPause,
            Command::Skip => ProviderCall::SkipNext,
            Command::Back => ProviderCall::SkipPrevious,
        }
    }
}

/// What the dispatcher does with a command: with an active session the
/// matching provider operation is invoked once, without one the command is
/// dropped.
pub open spec fn dispatch_of(command: Command, session_active: bool) -> Option<ProviderCall> {
    if session_active {
        Some(command.spec_provider_call())
    } else {
        None
    }
}

/// Decides what the dispatcher does with a command it has taken.
pub fn dispatch(command: Command, session_active: bool) -> (r: Option<ProviderCall>)
    ensures
        r == dispatch_of(command, session_active),
{
    if session_active {
        Some(command.provider_call())
    } else {
        None
    }
}

/// A single-slot cell that keeps only the most recent command. Publishing
/// overwrites whatever has not been taken yet; taking empties the slot.
#[derive(Debug, Clone, Copy, PartialEq, Eq, Structural)]
pub struct CommandCell {
    slot: Option<Command>,
}

impl View for CommandCell {
    type V = Option<Command>;

    closed spec fn view(&self) -> Option<Command> {
        self.slot
    }
}

impl CommandCell {
    /// An empty cell.
    pub fn new() -> (r: CommandCell)
        ensures
            r@ is None,
    {
        CommandCell { slot: None }
    }

    /// Stores a command, replacing one that was not taken yet.
    pub fn publish(&mut self, command: Command)
        ensures
            final(self)@ == Some(command),
    {
        self.slot = Some(command);
    }

    /// Hands out the stored command, if there is one, and empties the cell.
    pub fn take(&mut self) -> (r: Option<Command>)
        ensures
            r == old(self)@,
            final(self)@ is None,
    {
        let r = self.slot;
        self.slot = None;
        r
    }

    /// Whether a command waits to be taken.
    pub fn is_pending(&self) -> (r: bool)
        ensures
            r == (self@ is Some),
    {
        self.slot.is_some()
    }
}

} // verus!
