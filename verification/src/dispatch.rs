use vstd::prelude::*;

use crate::store::{StorageError, StoreModel, TicketStore};
use crate::ticket::{Ticket, TicketModel};

verus! {

/// The leading character that marks a message as a command invocation.
pub const COMMAND_PREFIX: char = '~';

/// The commands the registry knows: `ping` and `list`, plus the unfinished
/// create command (registered under both `test` and `create`).
#[derive(Clone, Copy, Debug, PartialEq, Eq, Structural)]
pub enum Command {
    /// Reply "Pong!"; no store access.
    Ping,
    /// Read every ticket; reply with a fixed acknowledgement and hand the
    /// listing back for local logging — no ticket details go to chat.
    List,
    /// Insert one sample ticket and reply with a confirmation.
    Create,
}

/// Whether a character separates the command name from the rest of the
/// message.
pub open spec fn is_space(c: char) -> bool {
    c == ' ' || c == '\t' || c == '\r' || c == '\n'
}

/// The index of the first whitespace character at or after `i`, or the end
/// of the text if there is none.
pub open spec fn name_end(text: Seq<char>, i: int) -> int
    decreases text.len() - i,
{
    if i < 0 || i >= text.len() {
        i
    } else if is_space(text[i]) {
        i
    } else {
        name_end(text, i + 1)
    }
}

/// The command name of a message: present iff the text begins with the
/// prefix; the name runs from just after the prefix up to the first
/// whitespace (exclusive), or to the end of the text.
pub open spec fn spec_parse(text: Seq<char>) -> Option<Seq<char>> {
    if text.len() > 0 && text[0] == COMMAND_PREFIX {
        Some(text.subrange(1, name_end(text, 1)))
    } else {
        None
    }
}

/// The fixed command registry, populated once: case-sensitive exact match
/// of the name against `ping`, `list`, and `test`/`create`.
pub open spec fn spec_lookup(name: Seq<char>) -> Option<Command> {
    if name == "ping"@ {
        Some(Command::Ping)
    } else if name == "list"@ {
        Some(Command::List)
    } else if name == "test"@ || name == "create"@ {
        Some(Command::Create)
    } else {
        None
    }
}

/// The command a message invokes, if any: parse the name, then look it up.
pub open spec fn command_of(text: Seq<char>) -> Option<Command> {
    match spec_parse(text) {
        Some(name) => spec_lookup(name),
        None => None,
    }
}

/// Character-for-character string equality.
fn str_eq(a: &str, b: &str) -> (r: bool)
    ensures
        r == (a@ == b@),
{
    let la = a.unicode_len();
    let lb = b.unicode_len();
    if la != lb {
        return false;
    }
    let mut i: usize = 0;
    while i < la
        invariant
            i <= la,
            la as nat == a@.len(),
            la as nat == b@.len(),
            forall|j: int| 0 <= j < i ==> a@[j] == b@[j],
        decreases la - i,
    {
        if a.get_char(i) != b.get_char(i) {
            return false;
        }
        i += 1;
    }
    proof {
        assert(a@ =~= b@);
    }
    true
}

/// Exec mirror of `is_space`.
fn is_space_char(c: char) -> (r: bool)
    ensures
        r == is_space(c),
{
    c == ' ' || c == '\t' || c == '\r' || c == '\n'
}

/// Parses a message into its command name, or nothing when the message does
/// not begin with the command prefix.
pub fn parse_command<'a>(text: &'a str) -> (r: Option<&'a str>)
    ensures
        match r {
            Some(name) => spec_parse(text@) == Some(name@),
            None => spec_parse(text@) is None,
        },
{
    let len = text.unicode_len();
    if len == 0 {
        return None;
    }
    if text.get_char(0) != COMMAND_PREFIX {
        return None;
    }
    let mut i: usize = 1;
    while i < len && !is_space_char(text.get_char(i))
        invariant
            1 <= i <= len,
            len as nat == text@.len(),
            name_end(text@, 1) == name_end(text@, i as int),
        decreases len - i,
    {
        i += 1;
    }
    proof {
        assert(name_end(text@, i as int) == i as int);
    }
    Some(text.substring_char(1, i))
}

/// Looks a name up in the fixed registry.
pub fn lookup_command(name: &str) -> (r: Option<Command>)
    ensures
        r == spec_lookup(name@),
{
    if str_eq(name, "ping") {
        Some(Command::Ping)
    } else if str_eq(name, "list") {
        Some(Command::List)
    } else if str_eq(name, "test") {
        Some(Command::Create)
    } else if str_eq(name, "create") {
        Some(Command::Create)
    } else {
        None
    }
}

/// The owner the unfinished create command fills in.
pub open spec fn sample_owner() -> Seq<char> {
    "Unassigned"@
}

/// The description the unfinished create command fills in.
pub open spec fn sample_description() -> Seq<char> {
    "Test ticket"@
}

/// The status the unfinished create command fills in.
pub open spec fn sample_status() -> Seq<char> {
    "New"@
}

/// The store state after dispatching a message: only the create command
/// writes; everything else leaves the store exactly as it was.
pub open spec fn dispatch_post(m: StoreModel, text: Seq<char>) -> StoreModel {
    match command_of(text) {
        Some(Command::Create) => m.after_create(
            sample_owner(),
            sample_description(),
            sample_status(),
        ),
        _ => m,
    }
}

/// The reply a dispatched message sends back, if any: "Pong!" for ping, a
/// fixed acknowledgement for the store commands when they succeed, and no
/// reply at all for unmatched text or a failed command — internal error
/// detail never reaches chat.
pub open spec fn dispatch_reply(m: StoreModel, text: Seq<char>) -> Option<Seq<char>> {
    match command_of(text) {
        Some(Command::Ping) => Some("Pong!"@),
        Some(Command::List) => if m.ok() {
            Some("Listing Tickets..."@)
        } else {
            None
        },
        Some(Command::Create) => if m.ok() {
            Some("Creating ticket..."@)
        } else {
            None
        },
        None => None,
    }
}

/// The listing a dispatched message hands back for local logging, if any:
/// the full ticket sequence on a successful list command.
pub open spec fn dispatch_listing(m: StoreModel, text: Seq<char>) -> Option<Seq<TicketModel>> {
    if command_of(text) == Some(Command::List) && m.ok() {
        Some(m.tickets)
    } else {
        None
    }
}

/// The storage error a dispatched message surfaces, if any: a failing store
/// command reports the state's error; unmatched text is no error at all.
pub open spec fn dispatch_error(m: StoreModel, text: Seq<char>) -> Option<StorageError> {
    match command_of(text) {
        Some(Command::List) => if m.ok() {
            None
        } else {
            Some(m.op_error())
        },
        Some(Command::Create) => if m.ok() {
            None
        } else {
            Some(m.op_error())
        },
        _ => None,
    }
}

/// What one dispatched message produced: the reply to send back to the
/// originating channel, the listing to log locally, and the storage error
/// the command ran into. A failed command carries an error and no reply;
/// unmatched text carries neither.
pub struct DispatchOutcome {
    /// Text to send back to the originating channel, when the command has
    /// one.
    pub reply: Option<String>,
    /// The tickets a list command read, for local logging only.
    pub listing: Option<Vec<Ticket>>,
    /// The storage failure the command ran into, kept out of chat output.
    pub error: Option<StorageError>,
}

/// Dispatches one inbound message: matches it against the prefix and the
/// registry, runs the matched command against the store, and reports what
/// to send and what went wrong. Never panics, so one failed command can
/// never take the event-processing loop down with it.
pub fn dispatch(store: &mut TicketStore, text: &str) -> (out: DispatchOutcome)
    requires
        old(store)@.wf(),
        old(store)@.next_id < u64::MAX,
    ensures
        final(store)@ == dispatch_post(old(store)@, text@),
        final(store)@.wf(),
        out.reply.deep_view() == dispatch_reply(old(store)@, text@),
        out.listing.deep_view() == dispatch_listing(old(store)@, text@),
        out.error == dispatch_error(old(store)@, text@),
{
    let cmd = match parse_command(text) {
        Some(name) => lookup_command(name),
        None => None,
    };
    match cmd {
        None => DispatchOutcome { reply: None, listing: None, error: None },
        Some(Command::Ping) => DispatchOutcome {
            reply: Some(String::from_str("Pong!")),
            listing: None,
            error: None,
        },
        Some(Command::List) => match store.list_all() {
            Ok(v) => DispatchOutcome {
                reply: Some(String::from_str("Listing Tickets...")),
                listing: Some(v),
                error: None,
            },
            Err(e) => DispatchOutcome { reply: None, listing: None, error: Some(e) },
        },
        Some(Command::Create) => {
            let owner = String::from_str("Unassigned");
            let description = String::from_str("Test ticket");
            let status = String::from_str("New");
            proof {
                reveal_strlit("Unassigned");
                reveal_strlit("Test ticket");
            }
            match store.create(owner, description, status) {
                Ok(_t) => DispatchOutcome {
                    reply: Some(String::from_str("Creating ticket...")),
                    listing: None,
                    error: None,
                },
                Err(e) => DispatchOutcome { reply: None, listing: None, error: Some(e) },
            }
        },
    }
}

/// Law: dispatching a ping always produces exactly the reply "Pong!", no
/// listing, no error, and no store access — the store state is untouched.
pub proof fn lemma_ping_pure(m: StoreModel, text: Seq<char>)
    requires
        command_of(text) == Some(Command::Ping),
    ensures
        dispatch_post(m, text) == m,
        dispatch_reply(m, text) == Some("Pong!"@),
        dispatch_listing(m, text) is None,
        dispatch_error(m, text) is None,
{
}

/// Law: a message that invokes no registered command — no prefix, or an
/// unknown name — produces no reply, no listing, no error, and leaves the
/// store untouched.
pub proof fn lemma_unmatched_ignored(m: StoreModel, text: Seq<char>)
    requires
        command_of(text) is None,
    ensures
        dispatch_post(m, text) == m,
        dispatch_reply(m, text) is None,
        dispatch_listing(m, text) is None,
        dispatch_error(m, text) is None,
{
}

/// Law: against an unreachable engine, every store command reports
/// `StorageError::Unavailable`, sends no reply, and changes nothing — and
/// the dispatcher still serves the next command: a following ping on the
/// resulting store replies exactly "Pong!".
pub proof fn lemma_unavailable_reported_and_survived(
    m: StoreModel,
    text: Seq<char>,
    next: Seq<char>,
)
    requires
        !m.reachable,
        command_of(text) == Some(Command::List) || command_of(text) == Some(Command::Create),
        command_of(next) == Some(Command::Ping),
    ensures
        dispatch_error(m, text) == Some(StorageError::Unavailable),
        dispatch_reply(m, text) is None,
        dispatch_listing(m, text) is None,
        dispatch_post(m, text) == m,
        dispatch_reply(dispatch_post(m, text), next) == Some("Pong!"@),
{
}

} // verus!
