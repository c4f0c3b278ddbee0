//! The command dispatcher: which handler a command goes to, the life cycle
//! of one dispatch, the count of invocations, and the commands that are
//! announced to the platform.

use crate::api::ErrorKind;
use crate::text::{opt_text, same_text};
use vstd::prelude::*;

verus! {

/// A command as it arrives from the platform.
#[derive(Debug, PartialEq, Eq)]
pub struct Command {
    pub name: String,
    pub sub_option: Option<String>,
    pub arguments: Vec<String>,
}

/// Where a command goes.
#[derive(Clone, Copy, Debug, PartialEq, Eq, Structural)]
pub enum Route {
    Ping,
    Prompt,
    Constructors,
    Drivers,
    Calendar,
    RecentRaceResults,
    /// The command is known and its option is not: answered with a fixed text.
    InvalidOption,
    /// The command is not known: answered with a fixed text.
    NotImplemented,
}

impl Route {
    /// Whether a handler runs for this route.
    pub open spec fn is_handler(self) -> bool {
        self != Route::InvalidOption && self != Route::NotImplemented
    }

    /// What is noted in the log for a route without a handler: that the
    /// command, or the part of it that was asked for, is not known. This is
    /// no fault, and nothing is noted for a route with a handler.
    pub fn noted(self) -> (r: Option<ErrorKind>)
        ensures
            r == if self.is_handler() {
                None
            } else {
                Some(ErrorKind::UnknownCommand)
            },
    {
        match self {
            Route::InvalidOption => Some(ErrorKind::UnknownCommand),
            Route::NotImplemented => Some(ErrorKind::UnknownCommand),
            _ => None,
        }
    }
}

/// The route of the `ai` command with the given option.
pub open spec fn ai_route(option: Option<Seq<char>>) -> Route {
    if option == Some("prompt"@) {
        Route::Prompt
    } else {
        Route::InvalidOption
    }
}

/// The route of the `f1` command with the given option.
pub open spec fn f1_route(option: Option<Seq<char>>) -> Route {
    if option == Some("constructors"@) {
        Route::Constructors
    } else if option == Some("drivers"@) {
        Route::Drivers
    } else if option == Some("calendar"@) {
        Route::Calendar
    } else if option == Some("recent_race_results"@) {
        Route::RecentRaceResults
    } else {
        Route::InvalidOption
    }
}

/// The route of a command, by its name and its first option. A command
/// without an option has no valid option.
pub open spec fn route_of(name: Seq<char>, option: Option<Seq<char>>) -> Route {
    if name == "ping"@ {
        Route::Ping
    } else if name == "ai"@ {
        ai_route(option)
    } else if name == "f1"@ {
        f1_route(option)
    } else {
        Route::NotImplemented
    }
}

/// Whether the dispatcher knows a command of this name.
pub open spec fn is_known(name: Seq<char>) -> bool {
    name == "ping"@ || name == "ai"@ || name == "f1"@
}

/// The text that answers a command for which no handler runs.
pub open spec fn fallback_text(route: Route) -> Option<Seq<char>> {
    match route {
        Route::InvalidOption => Some("Invalid option"@),
        Route::NotImplemented => Some("Not implemented :("@),
        _ => None,
    }
}

fn option_is(option: &Option<String>, name: &str) -> (r: bool)
    ensures
        r == (opt_text(*option) == Some(name@)),
{
    match option {
        Some(o) => same_text(o.as_str(), name),
        None => false,
    }
}

/// Finds the route of a command.
pub fn dispatch(command: &Command) -> (r: Route)
    ensures
        r == route_of(command.name@, opt_text(command.sub_option)),
{
    let name = command.name.as_str();
    if same_text(name, "ping") {
        Route::Ping
    } else if same_text(name, "ai") {
        if option_is(&command.sub_option, "prompt") {
            Route::Prompt
        } else {
            Route::InvalidOption
        }
    } else if same_text(name, "f1") {
        if option_is(&command.sub_option, "constructors") {
            Route::Constructors
        } else if option_is(&command.sub_option, "drivers") {
            Route::Drivers
        } else if option_is(&command.sub_option, "calendar") {
            Route::Calendar
        } else if option_is(&command.sub_option, "recent_race_results") {
            Route::RecentRaceResults
        } else {
            Route::InvalidOption
        }
    } else {
        Route::NotImplemented
    }
}

/// The fixed text for a route without a handler, and `None` for a route
/// with one.
pub fn fallback(route: Route) -> (r: Option<String>)
    ensures
        match r {
            Some(t) => fallback_text(route) == Some(t@),
            None => fallback_text(route) is None,
        },
        r is None <==> route.is_handler(),
{
    match route {
        Route::InvalidOption => Some("Invalid option".to_owned()),
        Route::NotImplemented => Some("Not implemented :(".to_owned()),
        _ => None,
    }
}

// ---------------------------------------------------------------------------
// Counting invocations
// ---------------------------------------------------------------------------

/// The entry of the counter that a command name is counted under. All names
/// that the dispatcher does not know share one entry.
#[derive(Clone, Copy, Debug, PartialEq, Eq, Structural)]
pub enum Bucket {
    Ping,
    Ai,
    F1,
    Unknown,
}

/// The entry that a name is counted under.
pub open spec fn bucket_of(name: Seq<char>) -> Bucket {
    if name == "ping"@ {
        Bucket::Ping
    } else if name == "ai"@ {
        Bucket::Ai
    } else if name == "f1"@ {
        Bucket::F1
    } else {
        Bucket::Unknown
    }
}

/// One more than `n`, and `n` itself at the largest count that is held.
pub open spec fn bumped(n: nat) -> nat {
    if n < u64::MAX {
        n + 1
    } else {
        n
    }
}

/// How often each command was dispatched since the process started.
#[derive(Debug, PartialEq, Eq)]
pub struct CommandCounter {
    ping: u64,
    ai: u64,
    f1: u64,
    unknown: u64,
}

impl CommandCounter {
    /// The count held in an entry.
    pub closed spec fn count(self, bucket: Bucket) -> nat {
        match bucket {
            Bucket::Ping => self.ping as nat,
            Bucket::Ai => self.ai as nat,
            Bucket::F1 => self.f1 as nat,
            Bucket::Unknown => self.unknown as nat,
        }
    }

    /// A counter with every entry at zero.
    pub fn new() -> (c: CommandCounter)
        ensures
            forall|b: Bucket| c.count(b) == 0,
    {
        CommandCounter { ping: 0, ai: 0, f1: 0, unknown: 0 }
    }

    fn bucket(name: &str) -> (b: Bucket)
        ensures
            b == bucket_of(name@),
    {
        if same_text(name, "ping") {
            Bucket::Ping
        } else if same_text(name, "ai") {
            Bucket::Ai
        } else if same_text(name, "f1") {
            Bucket::F1
        } else {
            Bucket::Unknown
        }
    }

    /// Counts one dispatch of the command `name`. The entry of that name
    /// goes up by one and stays at the largest count once it is there; no
    /// other entry changes.
    pub fn record(&mut self, name: &str)
        ensures
            forall|b: Bucket|
                final(self).count(b) == if b == bucket_of(name@) {
                    bumped(old(self).count(b))
                } else {
                    old(self).count(b)
                },
    {
        match CommandCounter::bucket(name) {
            Bucket::Ping => {
                self.ping = self.ping.saturating_add(1);
            },
            Bucket::Ai => {
                self.ai = self.ai.saturating_add(1);
            },
            Bucket::F1 => {
                self.f1 = self.f1.saturating_add(1);
            },
            Bucket::Unknown => {
                self.unknown = self.unknown.saturating_add(1);
            },
        }
    }

    /// How often the command `name` was dispatched; for a name that the
    /// dispatcher does not know, how often any such name was.
    pub fn invocations(&self, name: &str) -> (n: u64)
        ensures
            n == self.count(bucket_of(name@)),
    {
        match CommandCounter::bucket(name) {
            Bucket::Ping => self.ping,
            Bucket::Ai => self.ai,
            Bucket::F1 => self.f1,
            Bucket::Unknown => self.unknown,
        }
    }
}

// ---------------------------------------------------------------------------
// The life cycle of one dispatch
// ---------------------------------------------------------------------------

/// The state of a dispatch.
#[derive(Clone, Copy, Debug, PartialEq, Eq, Structural)]
pub enum Phase {
    /// Waiting for a command.
    Idle,
    /// The handler of a command is running.
    Dispatching,
}

/// How a handler ended.
#[derive(Clone, Copy, Debug, PartialEq, Eq, Structural)]
pub enum Completion {
    Succeeded,
    Failed,
}

/// What happened.
#[derive(Debug, PartialEq, Eq)]
pub enum Event {
    /// A command arrived.
    Received(Command),
    /// The handler ended.
    Completed(Completion),
}

/// What is to be done.
#[derive(Clone, Copy, Debug, PartialEq, Eq, Structural)]
pub enum Action {
    /// Answer along this route.
    Run(Route),
    /// Nothing.
    Rest,
}

/// The state after an event. A command that arrives at rest starts a
/// dispatch; the end of the handler, however it ended, leads back to rest.
/// Any other event leaves the state as it is.
pub open spec fn next_phase(phase: Phase, event: Event) -> Phase {
    match (phase, event) {
        (Phase::Idle, Event::Received(_)) => Phase::Dispatching,
        (Phase::Dispatching, Event::Completed(_)) => Phase::Idle,
        (p, _) => p,
    }
}

/// What to do on an event: run the route of a command that arrives at rest,
/// and nothing otherwise.
pub open spec fn next_action(phase: Phase, event: Event) -> Action {
    match (phase, event) {
        (Phase::Idle, Event::Received(c)) => Action::Run(
            route_of(c.name@, opt_text(c.sub_option)),
        ),
        _ => Action::Rest,
    }
}

/// The entry that an event is counted under: that of the name of a command
/// that arrives at rest. No other event is counted.
pub open spec fn counted_bucket(phase: Phase, event: Event) -> Option<Bucket> {
    match (phase, event) {
        (Phase::Idle, Event::Received(c)) => Some(bucket_of(c.name@)),
        _ => None,
    }
}

/// Takes one event: returns the next state and what to do, and counts the
/// command if a dispatch starts.
pub fn step(phase: Phase, event: &Event, counter: &mut CommandCounter) -> (r: (Phase, Action))
    ensures
        r.0 == next_phase(phase, *event),
        r.1 == next_action(phase, *event),
        forall|b: Bucket|
            final(counter).count(b) == if counted_bucket(phase, *event) == Some(b) {
                bumped(old(counter).count(b))
            } else {
                old(counter).count(b)
            },
{
    match phase {
        Phase::Idle => match event {
            Event::Received(command) => {
                counter.record(command.name.as_str());
                (Phase::Dispatching, Action::Run(dispatch(command)))
            },
            Event::Completed(_) => (Phase::Idle, Action::Rest),
        },
        Phase::Dispatching => match event {
            Event::Received(_) => (Phase::Dispatching, Action::Rest),
            Event::Completed(_) => (Phase::Idle, Action::Rest),
        },
    }
}

// ---------------------------------------------------------------------------
// The commands that are announced
// ---------------------------------------------------------------------------

/// What the bot shows as its activity once it is connected.
pub const PRESENCE: &'static str = "| Accepting slash commands!";

/// What an option of a command is.
#[derive(Clone, Copy, Debug, PartialEq, Eq, Structural)]
pub enum OptionKind {
    /// The option selects a part of the command.
    SubCommand,
    /// The option carries a text.
    Text,
}

/// An option of a command, as a mathematical value.
pub struct OptionValue {
    pub name: Seq<char>,
    pub description: Seq<char>,
    pub kind: OptionKind,
}

/// A command, as a mathematical value.
pub struct CommandValue {
    pub name: Seq<char>,
    pub description: Seq<char>,
    pub options: Seq<OptionValue>,
}

/// An option of a command that is announced to the platform.
#[derive(Debug, PartialEq, Eq)]
pub struct OptionSpec {
    pub name: &'static str,
    pub description: &'static str,
    pub kind: OptionKind,
}

impl View for OptionSpec {
    type V = OptionValue;

    open spec fn view(&self) -> OptionValue {
        OptionValue { name: self.name@, description: self.description@, kind: self.kind }
    }
}

/// A command that is announced to the platform.
#[derive(Debug, PartialEq, Eq)]
pub struct CommandSpec {
    pub name: &'static str,
    pub description: &'static str,
    pub options: Vec<OptionSpec>,
}

impl View for CommandSpec {
    type V = CommandValue;

    open spec fn view(&self) -> CommandValue {
        CommandValue {
            name: self.name@,
            description: self.description@,
            options: Seq::new(self.options@.len(), |i: int| self.options@[i]@),
        }
    }
}

/// The values of a sequence of commands.
pub open spec fn command_values(commands: Seq<CommandSpec>) -> Seq<CommandValue> {
    Seq::new(commands.len(), |i: int| commands[i]@)
}

/// An option that selects a part of a command.
pub open spec fn sub_command(name: Seq<char>, description: Seq<char>) -> OptionValue {
    OptionValue { name, description, kind: OptionKind::SubCommand }
}

/// The commands that are announced: `ping`, `f1` with its four parts, and
/// `ai` with its prompt.
pub open spec fn announced() -> Seq<CommandValue> {
    seq![
        CommandValue {
            name: "ping"@,
            description: "A ping command to verify if the bot is accepting comands"@,
            options: Seq::empty(),
        },
        CommandValue {
            name: "f1"@,
            description: "Get the current F1 standings and calendar"@,
            options: seq![
                sub_command("constructors"@, "Get current constructor standings"@),
                sub_command("drivers"@, "Get current driver standings"@),
                sub_command("calendar"@, "Get the season's calendar"@),
                sub_command(
                    "recent_race_results"@,
                    "Get the results from the most recent Grand Prix"@,
                ),
            ],
        },
        CommandValue {
            name: "ai"@,
            description: "Interact with an Open AI model"@,
            options: seq![
                OptionValue {
                    name: "prompt"@,
                    description: "The text sent to OpenAI"@,
                    kind: OptionKind::Text,
                },
            ],
        },
    ]
}

fn part(name: &'static str, description: &'static str) -> (o: OptionSpec)
    ensures
        o@ == sub_command(name@, description@),
{
    OptionSpec { name, description, kind: OptionKind::SubCommand }
}

/// The commands to announce to the platform once the bot is connected.
pub fn command_table() -> (table: Vec<CommandSpec>)
    ensures
        command_values(table@) == announced(),
{
    let ping = CommandSpec {
        name: "ping",
        description: "A ping command to verify if the bot is accepting comands",
        options: Vec::new(),
    };
    let mut parts: Vec<OptionSpec> = Vec::new();
    parts.push(part("constructors", "Get current constructor standings"));
    parts.push(part("drivers", "Get current driver standings"));
    parts.push(part("calendar", "Get the season's calendar"));
    parts.push(part("recent_race_results", "Get the results from the most recent Grand Prix"));
    let f1 = CommandSpec {
        name: "f1",
        description: "Get the current F1 standings and calendar",
        options: parts,
    };
    let mut texts: Vec<OptionSpec> = Vec::new();
    texts.push(
        OptionSpec { name: "prompt", description: "The text sent to OpenAI", kind: OptionKind::Text },
    );
    let ai = CommandSpec {
        name: "ai",
        description: "Interact with an Open AI model",
        options: texts,
    };
    assert(ping@.options =~= announced()[0].options);
    assert(f1@.options =~= announced()[1].options);
    assert(ai@.options =~= announced()[2].options);
    let mut table: Vec<CommandSpec> = Vec::new();
    table.push(ping);
    table.push(f1);
    table.push(ai);
    assert(command_values(table@) =~= announced());
    table
}

/// Whether a command of the given value, invoked with the option at place
/// `j` if it has options and without one if it has none, reaches a
/// handler.
pub open spec fn reaches_handler(c: CommandValue, j: int) -> bool {
    if c.options.len() == 0 {
        route_of(c.name, None).is_handler()
    } else {
        route_of(c.name, Some(c.options[j].name)).is_handler()
    }
}

/// Every command that is announced reaches a handler, with each of its
/// options: the dispatcher answers none of them with a fallback text.
pub proof fn law_announced_commands_are_routed(i: int, j: int)
    requires
        0 <= i < announced().len(),
        0 <= j < announced()[i].options.len() || announced()[i].options.len() == 0,
    ensures
        is_known(announced()[i].name),
        reaches_handler(announced()[i], j),
{
    reveal_strlit("ping");
    reveal_strlit("ai");
    reveal_strlit("f1");
    reveal_strlit("prompt");
    reveal_strlit("constructors");
    reveal_strlit("drivers");
    reveal_strlit("calendar");
    reveal_strlit("recent_race_results");
    assert("ping"@.len() == 4);
    assert("ai"@.len() == 2);
    assert("f1"@.len() == 2);
    assert("ai"@[0] != "f1"@[0]);
    assert("constructors"@.len() == 12);
    assert("drivers"@.len() == 7);
    assert("calendar"@.len() == 8);
    assert("recent_race_results"@.len() == 19);
}

/// A name that the dispatcher does not know is answered with the fixed text
/// and counted under the shared entry, whatever its option: no entry of a
/// known command changes.
pub proof fn law_unknown_command(name: Seq<char>, option: Option<Seq<char>>)
    requires
        !is_known(name),
    ensures
        route_of(name, option) == Route::NotImplemented,
        fallback_text(route_of(name, option)) == Some("Not implemented :("@),
        bucket_of(name) == Bucket::Unknown,
{
}

/// The end of the handler leads back to rest from every state, however the
/// handler ended, and asks for nothing more.
pub proof fn law_completion_leads_to_rest(phase: Phase, completion: Completion)
    ensures
        next_phase(phase, Event::Completed(completion)) == Phase::Idle,
        next_action(phase, Event::Completed(completion)) == Action::Rest,
        counted_bucket(phase, Event::Completed(completion)) is None,
{
}

} // verus!
