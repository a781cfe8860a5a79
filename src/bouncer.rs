//! Talking to the bouncer's admin socket: the line protocol of one command
//! round trip, the reading of its reply, and the command texts.

use vstd::prelude::*;

use crate::text::{chars_of, contains, has_infix, has_prefix, starts_with, strip_line_end, without_line_end};
use crate::username::{lowercase, lowercase_of};

verus! {

/// What the bouncer answered to one command.
#[derive(Debug, Clone, Copy, PartialEq, Eq, Structural)]
pub enum CommandOutcome {
    /// The command was carried out.
    Accepted,
    /// The command failed because its object already exists.
    AlreadyExists,
    /// The command failed, or no reply came before the connection closed.
    Failed,
}

/// Where a command round trip stands.
#[derive(Debug, Clone, Copy, PartialEq, Eq, Structural)]
pub enum Phase {
    /// The handshake was sent; waiting for the welcome line.
    AwaitWelcome,
    /// The command was sent; waiting for the control service's notice.
    AwaitReply,
    /// The outcome is known.
    Finished,
}

/// What the client does after reading a line.
pub enum AdminAction {
    /// Write this text to the socket and read on.
    Send(String),
    /// Read on.
    Wait,
    /// The round trip is over with this outcome: say goodbye and close.
    Finish(CommandOutcome),
}

/// Model of an [`AdminAction`].
pub enum ActionView {
    Send(Seq<char>),
    Wait,
    Finish(CommandOutcome),
}

impl View for AdminAction {
    type V = ActionView;

    open spec fn view(&self) -> ActionView {
        match self {
            AdminAction::Send(t) => ActionView::Send(t@),
            AdminAction::Wait => ActionView::Wait,
            AdminAction::Finish(o) => ActionView::Finish(*o),
        }
    }
}

pub open spec fn handshake_text() -> Seq<char> {
    "NICK soju-admin\r\nUSER soju-admin 0 * :soju-admin\r\n"@
}

pub open spec fn quit_text() -> Seq<char> {
    "QUIT\r\n"@
}

/// The chat message that carries `command` to the control service.
pub open spec fn command_message(command: Seq<char>) -> Seq<char> {
    "PRIVMSG BouncerServ :"@ + command + "\r\n"@
}

/// The answer to a keep-alive probe: its payload after `"PING "`, echoed.
pub open spec fn pong_text(line: Seq<char>) -> Seq<char> {
    let payload = if line.len() >= 5 { line.subrange(5, line.len() as int) } else { Seq::empty() };
    "PONG "@ + payload + "\r\n"@
}

/// A reply names a failure when, ignoring case, it says "error", "unknown"
/// or "failed".
pub open spec fn is_failure_reply(line: Seq<char>) -> bool {
    let l = lowercase_of(line);
    has_infix(l, "error"@) || has_infix(l, "unknown"@) || has_infix(l, "failed"@)
}

/// What a notice from the control service says of the command.
pub open spec fn reply_outcome(line: Seq<char>) -> CommandOutcome {
    if !is_failure_reply(line) {
        CommandOutcome::Accepted
    } else if has_infix(line, "already exists"@) {
        CommandOutcome::AlreadyExists
    } else {
        CommandOutcome::Failed
    }
}

/// A line is the control service's notice.
pub open spec fn is_service_notice(line: Seq<char>) -> bool {
    has_infix(line, "NOTICE"@) && has_infix(line, "BouncerServ"@)
}

/// Index of the first `' '` at or after `i`, or the length if there is none.
pub open spec fn space_from(s: Seq<char>, i: int) -> int
    decreases s.len() - i,
{
    if i >= s.len() || i < 0 {
        s.len() as int
    } else if s[i] == ' ' {
        i
    } else {
        space_from(s, i + 1)
    }
}

proof fn lemma_space_from_bounds(s: Seq<char>, i: int)
    requires
        0 <= i <= s.len(),
    ensures
        i <= space_from(s, i) <= s.len(),
        space_from(s, i) < s.len() ==> s[space_from(s, i)] == ' ',
    decreases s.len() - i,
{
    if i < s.len() && s[i] != ' ' {
        lemma_space_from_bounds(s, i + 1);
    }
}

/// The command (or numeric reply) field of a protocol line: the first word,
/// or the second one when the line opens with a `':'` source prefix.
pub open spec fn command_field(line: Seq<char>) -> Seq<char> {
    if line.len() > 0 && line[0] == ':' {
        let a = space_from(line, 0);
        if a >= line.len() {
            Seq::empty()
        } else {
            line.subrange(a + 1, space_from(line, a + 1))
        }
    } else {
        line.subrange(0, space_from(line, 0))
    }
}

/// One line read in `phase` during the round trip of `command`: the next
/// phase and the action. A `PING` is answered at once, in every phase. The
/// welcome line (numeric `001`) lets the command go out; an `ERROR` line
/// before it, or a failing notice after it, ends the trip; anything else is
/// passed over.
pub open spec fn step_spec(phase: Phase, command: Seq<char>, raw: Seq<char>) -> (Phase, ActionView) {
    let line = without_line_end(raw);
    if has_prefix(line, "PING"@) {
        (phase, ActionView::Send(pong_text(line)))
    } else {
        match phase {
            Phase::AwaitWelcome => if command_field(line) == "001"@ {
                (Phase::AwaitReply, ActionView::Send(command_message(command)))
            } else if has_prefix(line, "ERROR"@) {
                (Phase::Finished, ActionView::Finish(CommandOutcome::Failed))
            } else {
                (phase, ActionView::Wait)
            },
            Phase::AwaitReply => if is_service_notice(line) {
                (Phase::Finished, ActionView::Finish(reply_outcome(line)))
            } else {
                (phase, ActionView::Wait)
            },
            Phase::Finished => (phase, ActionView::Wait),
        }
    }
}

/// Index of the first `' '` of `s` at or after `from`.
fn space_index(s: &Vec<char>, from: usize) -> (r: usize)
    requires
        from <= s@.len(),
    ensures
        r == space_from(s@, from as int),
{
    let mut i = from;
    while i < s.len()
        invariant
            from <= i <= s@.len(),
            space_from(s@, from as int) == space_from(s@, i as int),
        decreases s@.len() - i,
    {
        if s[i] == ' ' {
            return i;
        }
        i = i + 1;
    }
    i
}

/// The command field of a line.
pub fn command_field_of(line: &str) -> (r: String)
    ensures
        r@ == command_field(line@),
{
    let chars = chars_of(line);
    let n = line.unicode_len();
    if n > 0 && chars[0] == ':' {
        let a = space_index(&chars, 0);
        proof {
            lemma_space_from_bounds(line@, 0);
        }
        if a >= n {
            return String::new();
        }
        let b = space_index(&chars, a + 1);
        proof {
            lemma_space_from_bounds(line@, a + 1);
        }
        String::from_str(line.substring_char(a + 1, b))
    } else {
        let a = space_index(&chars, 0);
        proof {
            lemma_space_from_bounds(line@, 0);
        }
        String::from_str(line.substring_char(0, a))
    }
}

/// The text that opens a round trip: identify as an admin client.
pub fn handshake() -> (r: String)
    ensures
        r@ == handshake_text(),
{
    String::from_str("NICK soju-admin\r\nUSER soju-admin 0 * :soju-admin\r\n")
}

/// The text that closes a round trip.
pub fn quit() -> (r: String)
    ensures
        r@ == quit_text(),
{
    String::from_str("QUIT\r\n")
}

/// Reads a notice of the control service: accepted, failed because the
/// object already exists, or failed.
pub fn classify_reply(line: &str) -> (r: CommandOutcome)
    ensures
        r == reply_outcome(line@),
{
    let lower = lowercase(line);
    let failed = contains(lower.as_str(), "error") || contains(lower.as_str(), "unknown")
        || contains(lower.as_str(), "failed");
    if !failed {
        CommandOutcome::Accepted
    } else if contains(line, "already exists") {
        CommandOutcome::AlreadyExists
    } else {
        CommandOutcome::Failed
    }
}

/// The answer to a keep-alive line.
fn pong(line: &str) -> (r: String)
    ensures
        r@ == pong_text(line@),
{
    let n = line.unicode_len();
    let mut r = String::from_str("PONG ");
    if n >= 5 {
        r.append(line.substring_char(5, n));
    }
    r.append("\r\n");
    r
}

/// One command round trip over the admin socket, driven line by line: the
/// caller sends [`handshake`], hands each line it reads to `on_line` and
/// does what it returns, and calls `on_close` if the socket closes first.
pub struct AdminExchange {
    phase: Phase,
    command: String,
}

impl AdminExchange {
    pub closed spec fn phase_of(&self) -> Phase {
        self.phase
    }

    pub closed spec fn command_of(&self) -> Seq<char> {
        self.command@
    }

    /// A round trip for `command`, waiting for the welcome line.
    pub fn new(command: String) -> (r: AdminExchange)
        ensures
            r.phase_of() == Phase::AwaitWelcome,
            r.command_of() == command@,
    {
        AdminExchange { phase: Phase::AwaitWelcome, command }
    }

    /// Where the round trip stands.
    pub fn phase(&self) -> (r: Phase)
        ensures
            r == self.phase_of(),
    {
        self.phase
    }

    /// Handles one line read from the socket.
    pub fn on_line(&mut self, raw: &str) -> (r: AdminAction)
        ensures
            final(self).command_of() == old(self).command_of(),
            (final(self).phase_of(), r@) == step_spec(old(self).phase_of(), old(self).command_of(), raw@),
    {
        let line = strip_line_end(raw);
        if starts_with(line, "PING") {
            return AdminAction::Send(pong(line));
        }
        match self.phase {
            Phase::AwaitWelcome => {
                if command_field_of(line) == String::from_str("001") {
                    self.phase = Phase::AwaitReply;
                    let mut m = String::from_str("PRIVMSG BouncerServ :");
                    m.append(self.command.as_str());
                    m.append("\r\n");
                    AdminAction::Send(m)
                } else if starts_with(line, "ERROR") {
                    self.phase = Phase::Finished;
                    AdminAction::Finish(CommandOutcome::Failed)
                } else {
                    AdminAction::Wait
                }
            },
            Phase::AwaitReply => {
                if contains(line, "NOTICE") && contains(line, "BouncerServ") {
                    self.phase = Phase::Finished;
                    AdminAction::Finish(classify_reply(line))
                } else {
                    AdminAction::Wait
                }
            },
            Phase::Finished => AdminAction::Wait,
        }
    }

    /// The socket closed before the round trip finished: it has failed.
    pub fn on_close(&mut self) -> (r: CommandOutcome)
        ensures
            final(self).phase_of() == Phase::Finished,
            final(self).command_of() == old(self).command_of(),
            r == CommandOutcome::Failed,
    {
        self.phase = Phase::Finished;
        CommandOutcome::Failed
    }
}

} // verus!
