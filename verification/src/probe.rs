//! The toolchain probe: does the active compiler accept a fixed snippet?
//!
//! A probe is run once per build. It locates the compiler, has the snippet
//! written to a scratch file, has the compiler run on it, and emits a
//! configuration gate if the compiler exits cleanly. Every other way out
//! emits nothing; no outcome is an error.
//!
//! Reading the environment, writing the file and running the compiler are
//! the host's work. What is decided between those steps is decided here.

use vstd::prelude::*;
use vstd::string::StrSliceExecFns;
use vstd::string::StringExecFns;

verus! {

/// The character that separates the entries of an encoded flag list.
pub const FLAG_SEPARATOR: char = '\x1f';

/// The pieces of `text` between the occurrences of `separator`, in order.
/// There is one piece more than there are separators; a piece may be empty.
pub open spec fn split(text: Seq<char>, separator: char) -> Seq<Seq<char>>
    decreases text.len(),
{
    if text.len() == 0 {
        seq![Seq::empty()]
    } else {
        let before = split(text.drop_last(), separator);
        if text.last() == separator {
            before.push(Seq::empty())
        } else {
            before.drop_last().push(before.last().push(text.last()))
        }
    }
}

/// `pieces` strung together with one `separator` between neighbours.
pub open spec fn join(pieces: Seq<Seq<char>>, separator: char) -> Seq<char>
    decreases pieces.len(),
{
    if pieces.len() == 0 {
        Seq::empty()
    } else if pieces.len() == 1 {
        pieces[0]
    } else {
        join(pieces.drop_last(), separator).push(separator) + pieces.last()
    }
}

/// Splitting loses nothing and leaves no separator behind: there is at
/// least one piece, no piece holds the separator, and the pieces joined by
/// the separator are the text again.
pub proof fn lemma_split_join(text: Seq<char>, separator: char)
    ensures
        split(text, separator).len() >= 1,
        forall|i: int|
            0 <= i < split(text, separator).len() ==> !(#[trigger] split(
                text,
                separator,
            )[i]).contains(separator),
        join(split(text, separator), separator) == text,
    decreases text.len(),
{
    if text.len() > 0 {
        let shorter = text.drop_last();
        let before = split(shorter, separator);
        let pieces = split(text, separator);
        lemma_split_join(shorter, separator);
        if text.last() == separator {
            assert(pieces.drop_last() == before);
        } else {
            let grown = before.last().push(text.last());
            assert(pieces.last() == grown);
            assert(pieces.drop_last() == before.drop_last());
            assert forall|k: int| 0 <= k < grown.len() implies grown[k] != separator by {}
            assert(shorter.push(text.last()) == text);
        }
    }
}

/// The texts of `strings`, in order.
pub open spec fn texts(strings: Seq<String>) -> Seq<Seq<char>> {
    strings.map_values(|s: String| s@)
}

/// Splits an encoded flag list at each [`FLAG_SEPARATOR`].
pub fn split_flags(encoded: &str) -> (flags: Vec<String>)
    ensures
        texts(flags@) == split(encoded@, FLAG_SEPARATOR),
{
    let mut flags: Vec<String> = Vec::new();
    let mut start: usize = 0;
    let mut i: usize = 0;
    let length = encoded.unicode_len();
    assert(encoded@.subrange(0, 0) == Seq::<char>::empty());
    for c in it: encoded.chars()
        invariant
            it.seq() == encoded@,
            length == encoded@.len(),
            i == it.index(),
            start <= i <= encoded@.len(),
            split(encoded@.take(i as int), FLAG_SEPARATOR) == texts(flags@).push(
                encoded@.subrange(start as int, i as int),
            ),
    {
        assert(encoded@.take(i + 1).drop_last() == encoded@.take(i as int));
        if c == FLAG_SEPARATOR {
            let piece = encoded.substring_char(start, i);
            flags.push(piece.to_owned());
            start = i + 1;
            assert(encoded@.subrange(start as int, i + 1) == Seq::<char>::empty());
        } else {
            assert(encoded@.subrange(start as int, i + 1) == encoded@.subrange(
                start as int,
                i as int,
            ).push(encoded@[i as int]));
        }
        i += 1;
    }
    assert(encoded@.take(i as int) == encoded@);
    let piece = encoded.substring_char(start, i);
    flags.push(piece.to_owned());
    flags
}

/// One question put to the toolchain: does it compile `snippet`? If it
/// does, the configuration gate `gate` is emitted.
#[derive(Clone, Copy, Debug, PartialEq, Eq)]
pub struct Probe<'a> {
    pub snippet: &'a str,
    pub gate: &'a str,
}

/// A snippet that uses the provider interface for diagnostic capture.
pub const PROVIDE_ANY_SNIPPET: &'static str = "
    #![feature(provide_any)]

    use std::any::{Demand, Provider};

    fn _f<'a, P: Provider>(p: &'a P, demand: &mut Demand<'a>) {
        p.provide(demand);
    }
";

/// A snippet that captures a backtrace.
pub const BACKTRACE_SNIPPET: &'static str = "
    use std::backtrace::Backtrace;

    fn _f() -> Backtrace {
        Backtrace::capture()
    }
";

/// The name of the configuration gate for the provider interface.
pub const PROVIDE_ANY_GATE: &'static str = "provide_any";

/// The name of the configuration gate for backtrace capture.
pub const BACKTRACE_GATE: &'static str = "has_backtrace";

/// The probe for the provider interface.
pub fn provide_any_probe() -> (probe: Probe<'static>)
    ensures
        probe.snippet@ == PROVIDE_ANY_SNIPPET@,
        probe.gate@ == PROVIDE_ANY_GATE@,
{
    Probe { snippet: PROVIDE_ANY_SNIPPET, gate: PROVIDE_ANY_GATE }
}

/// The probe for backtrace capture.
pub fn backtrace_probe() -> (probe: Probe<'static>)
    ensures
        probe.snippet@ == BACKTRACE_SNIPPET@,
        probe.gate@ == BACKTRACE_GATE@,
{
    Probe { snippet: BACKTRACE_SNIPPET, gate: BACKTRACE_GATE }
}

/// The probes of a build, in the order in which they are run: first the one
/// for the provider interface, then the one for backtrace capture.
pub fn probes() -> (list: Vec<Probe<'static>>)
    ensures
        list@.len() == 2,
        list@[0].snippet@ == PROVIDE_ANY_SNIPPET@,
        list@[0].gate@ == PROVIDE_ANY_GATE@,
        list@[1].snippet@ == BACKTRACE_SNIPPET@,
        list@[1].gate@ == BACKTRACE_GATE@,
{
    let mut list: Vec<Probe<'static>> = Vec::new();
    list.push(provide_any_probe());
    list.push(backtrace_probe());
    list
}

/// What the build environment says of the toolchain.
#[derive(Debug, PartialEq, Eq)]
pub struct Environment {
    /// The compiler executable.
    pub rustc: Option<String>,
    /// The directory for scratch output.
    pub out_dir: Option<String>,
    /// A wrapper to run in the compiler's place, with the compiler as its
    /// first argument.
    pub rustc_wrapper: Option<String>,
    /// The target platform triple.
    pub target: Option<String>,
    /// Further compiler flags, separated by [`FLAG_SEPARATOR`].
    pub encoded_rustflags: Option<String>,
}

/// A compiler run: the program to start and its arguments, in order.
#[derive(Debug, PartialEq, Eq)]
pub struct Invocation {
    pub program: String,
    pub args: Vec<String>,
}

impl Environment {
    /// The compiler and the scratch directory are both known.
    pub open spec fn located(self) -> bool {
        self.rustc is Some && self.out_dir is Some
    }

    /// The program that a probe starts: the wrapper if there is one, else
    /// the compiler.
    pub open spec fn program(self) -> Seq<char>
        recommends
            self.located(),
    {
        match self.rustc_wrapper {
            Some(wrapper) => wrapper@,
            None => self.rustc->0@,
        }
    }

    /// The arguments with which a probe compiles `file`: behind a wrapper
    /// the compiler first; then the request for a library of edition 2018
    /// of which only the metadata is written, to the scratch directory;
    /// the file; the target, if known; and each further flag, if the flag
    /// list is there and not empty.
    pub open spec fn arguments(self, file: Seq<char>) -> Seq<Seq<char>>
        recommends
            self.located(),
    {
        let lead = match self.rustc_wrapper {
            Some(_) => seq![self.rustc->0@],
            None => Seq::empty(),
        };
        let target = match self.target {
            Some(triple) => seq!["--target"@, triple@],
            None => Seq::empty(),
        };
        let flags = match self.encoded_rustflags {
            Some(encoded) if encoded@.len() > 0 => split(encoded@, FLAG_SEPARATOR),
            _ => Seq::empty(),
        };
        lead + seq![
            "--edition=2018"@,
            "--crate-name=thiserror_build"@,
            "--crate-type=lib"@,
            "--emit=metadata"@,
            "--out-dir"@,
            self.out_dir->0@,
            file,
        ] + target + flags
    }
}

impl Invocation {
    /// The compiler run that probes `file` in the environment `env`, or
    /// `None` if the compiler or the scratch directory is not known.
    pub fn new(env: &Environment, file: &str) -> (run: Option<Invocation>)
        ensures
            run is Some <==> env.located(),
            run matches Some(invocation) ==> {
                &&& invocation.program@ == env.program()
                &&& texts(invocation.args@) == env.arguments(file@)
            },
    {
        let (rustc, out_dir) = match (&env.rustc, &env.out_dir) {
            (Some(rustc), Some(out_dir)) => (rustc, out_dir),
            _ => {
                return None;
            },
        };
        let mut args: Vec<String> = Vec::new();
        let program = match &env.rustc_wrapper {
            Some(wrapper) => {
                args.push(rustc.clone());
                wrapper.clone()
            },
            None => rustc.clone(),
        };
        args.push("--edition=2018".to_owned());
        args.push("--crate-name=thiserror_build".to_owned());
        args.push("--crate-type=lib".to_owned());
        args.push("--emit=metadata".to_owned());
        args.push("--out-dir".to_owned());
        args.push(out_dir.clone());
        args.push(file.to_owned());
        if let Some(triple) = &env.target {
            args.push("--target".to_owned());
            args.push(triple.clone());
        }
        if let Some(encoded) = &env.encoded_rustflags {
            if !encoded.as_str().is_empty() {
                let mut flags = split_flags(encoded.as_str());
                args.append(&mut flags);
            }
        }
        Some(Invocation { program, args })
    }
}

/// The name of the scratch file that holds the snippet.
pub const SNIPPET_FILE: &'static str = "probe.rs";

/// The line that emits the configuration gate `gate` to the build.
pub open spec fn directive(gate: Seq<char>) -> Seq<char> {
    "cargo:rustc-cfg="@ + gate
}

/// How far a probe has come.
#[derive(Debug, PartialEq, Eq)]
pub enum Stage {
    /// Nothing has happened yet.
    Idle,
    /// The host is reading the environment.
    Locating,
    /// The host is writing the snippet; the environment is as given.
    Writing(Environment),
    /// The host is running the compiler.
    Invoking,
    /// The probe is over; the flag tells whether it emitted its gate.
    Done(bool),
}

/// What the host reports back to a probe.
#[derive(Debug, PartialEq, Eq)]
pub enum Event {
    /// The probe is to begin.
    Begin,
    /// The environment has been read.
    Located(Environment),
    /// The snippet has been written to the file named, or could not be
    /// written.
    Written(Option<String>),
    /// The compiler has exited, cleanly or not, or could not be started.
    Exited(Option<bool>),
}

/// What a probe asks of the host next.
#[derive(Debug, PartialEq, Eq)]
pub enum Action {
    /// Read the environment.
    Locate,
    /// Write `contents` to a fresh file `file_name` in `directory`.
    Write { directory: String, file_name: String, contents: String },
    /// Run the compiler, with its diagnostics suppressed.
    Invoke(Invocation),
    /// Emit the line to the build. The probe is over.
    Emit(String),
    /// Nothing more. The probe is over, or was over before.
    Rest,
}

/// From `stage`, on `event`, the probe for `probe` goes to `next` and asks
/// for `action`.
///
/// A probe begins by asking for the environment. With compiler and scratch
/// directory known it asks for the snippet to be written, then for the
/// compiler to be run on the file, and on a clean exit it emits its gate.
/// Anything else, an event out of turn too, ends the probe without a gate;
/// a probe that is over stays as it is.
pub open spec fn steps(
    probe: Probe,
    stage: Stage,
    event: Event,
    next: Stage,
    action: Action,
) -> bool {
    match (stage, event) {
        (Stage::Idle, Event::Begin) => next is Locating && action is Locate,
        (Stage::Locating, Event::Located(env)) if env.located() => {
            &&& next == Stage::Writing(env)
            &&& action matches Action::Write { directory, file_name, contents }
            &&& directory@ == env.out_dir->0@
            &&& file_name@ == SNIPPET_FILE@
            &&& contents@ == probe.snippet@
        },
        (Stage::Writing(env), Event::Written(Some(file))) if env.located() => {
            &&& next is Invoking
            &&& action matches Action::Invoke(invocation)
            &&& invocation.program@ == env.program()
            &&& texts(invocation.args@) == env.arguments(file@)
        },
        (Stage::Invoking, Event::Exited(Some(true))) => {
            &&& next == Stage::Done(true)
            &&& action matches Action::Emit(line)
            &&& line@ == directive(probe.gate@)
        },
        (Stage::Done(emitted), _) => next == Stage::Done(emitted) && action is Rest,
        _ => next == Stage::Done(false) && action is Rest,
    }
}

/// Takes a probe one step on: the stage that follows `stage` on `event`,
/// and what the host is to do next.
pub fn step(probe: &Probe, stage: Stage, event: Event) -> (r: (Stage, Action))
    ensures
        steps(*probe, stage, event, r.0, r.1),
{
    match (stage, event) {
        (Stage::Idle, Event::Begin) => (Stage::Locating, Action::Locate),
        (Stage::Locating, Event::Located(env)) => {
            let directory = match (&env.rustc, &env.out_dir) {
                (Some(_), Some(out_dir)) => out_dir.clone(),
                _ => {
                    return (Stage::Done(false), Action::Rest);
                },
            };
            let action = Action::Write {
                directory,
                file_name: SNIPPET_FILE.to_owned(),
                contents: probe.snippet.to_owned(),
            };
            (Stage::Writing(env), action)
        },
        (Stage::Writing(env), Event::Written(Some(file))) => {
            match Invocation::new(&env, file.as_str()) {
                Some(invocation) => (Stage::Invoking, Action::Invoke(invocation)),
                None => (Stage::Done(false), Action::Rest),
            }
        },
        (Stage::Invoking, Event::Exited(Some(true))) => {
            let line = "cargo:rustc-cfg=".to_owned().concat(probe.gate);
            (Stage::Done(true), Action::Emit(line))
        },
        (Stage::Done(emitted), _) => (Stage::Done(emitted), Action::Rest),
        _ => (Stage::Done(false), Action::Rest),
    }
}

/// `stages`, `events` and `actions` record a run of the probe for `probe`
/// from the start: the run begins idle, and each event takes the stage
/// before it to the stage after it with the action recorded.
pub open spec fn is_run(
    probe: Probe,
    stages: Seq<Stage>,
    events: Seq<Event>,
    actions: Seq<Action>,
) -> bool {
    &&& stages.len() == events.len() + 1
    &&& actions.len() == events.len()
    &&& stages[0] is Idle
    &&& forall|i: int|
        0 <= i < events.len() ==> steps(
            probe,
            #[trigger] stages[i],
            events[i],
            stages[i + 1],
            actions[i],
        )
}

/// A gate is emitted at one point of a run only: as the fourth action,
/// after the probe was begun, compiler and scratch directory were found,
/// the snippet was written and the compiler exited cleanly. The line
/// emitted is the directive for the probe's own gate. So no run emits a
/// gate twice, and none emits one without a compiler or a scratch
/// directory, after a failed write, or after a compiler that failed or
/// could not be started.
pub proof fn lemma_emit_only_on_success(
    probe: Probe,
    stages: Seq<Stage>,
    events: Seq<Event>,
    actions: Seq<Action>,
    i: int,
)
    requires
        is_run(probe, stages, events, actions),
        0 <= i < actions.len(),
        actions[i] is Emit,
    ensures
        i == 3,
        events[0] is Begin,
        events[1] matches Event::Located(env) && env.located(),
        events[2] matches Event::Written(Some(_)),
        events[3] == Event::Exited(Some(true)),
        actions[3] matches Action::Emit(line) && line@ == directive(probe.gate@),
{
    // Only the invoking stage emits, and it lies three steps behind the
    // start, to which no step leads back.
    if i > 3 {
        assert(steps(probe, stages[i - 4], events[i - 4], stages[i - 3], actions[i - 4]));
    }
}

/// A run in which the probe was begun, compiler and scratch directory were
/// found, the snippet was written and the compiler exited cleanly emits
/// its gate.
pub proof fn lemma_success_emits(
    probe: Probe,
    stages: Seq<Stage>,
    events: Seq<Event>,
    actions: Seq<Action>,
)
    requires
        is_run(probe, stages, events, actions),
        events.len() >= 4,
        events[0] is Begin,
        events[1] matches Event::Located(env) && env.located(),
        events[2] matches Event::Written(Some(_)),
        events[3] == Event::Exited(Some(true)),
    ensures
        actions[3] matches Action::Emit(line) && line@ == directive(probe.gate@),
        stages[4] == Stage::Done(true),
{
}

/// No run emits a gate twice.
pub proof fn lemma_emits_at_most_once(
    probe: Probe,
    stages: Seq<Stage>,
    events: Seq<Event>,
    actions: Seq<Action>,
    i: int,
    j: int,
)
    requires
        is_run(probe, stages, events, actions),
        0 <= i < actions.len(),
        0 <= j < actions.len(),
        actions[i] is Emit,
        actions[j] is Emit,
    ensures
        i == j,
{
    lemma_emit_only_on_success(probe, stages, events, actions, i);
    lemma_emit_only_on_success(probe, stages, events, actions, j);
}

/// A run in whose environment the compiler or the scratch directory is
/// missing emits no gate.
pub proof fn lemma_unlocated_emits_nothing(
    probe: Probe,
    stages: Seq<Stage>,
    events: Seq<Event>,
    actions: Seq<Action>,
    i: int,
)
    requires
        is_run(probe, stages, events, actions),
        events.len() >= 2,
        events[1] matches Event::Located(env) && !env.located(),
        0 <= i < actions.len(),
    ensures
        !(actions[i] is Emit),
{
    if actions[i] is Emit {
        lemma_emit_only_on_success(probe, stages, events, actions, i);
    }
}

/// A run in which the snippet could not be written, or in which the
/// compiler did not exit cleanly or could not be started, emits no gate.
pub proof fn lemma_failure_emits_nothing(
    probe: Probe,
    stages: Seq<Stage>,
    events: Seq<Event>,
    actions: Seq<Action>,
    i: int,
)
    requires
        is_run(probe, stages, events, actions),
        0 <= i < actions.len(),
        ({
            ||| events.len() >= 3 && events[2] == Event::Written(None)
            ||| events.len() >= 4 && events[3] is Exited && events[3] != Event::Exited(Some(true))
        }),
    ensures
        !(actions[i] is Emit),
{
    if actions[i] is Emit {
        lemma_emit_only_on_success(probe, stages, events, actions, i);
    }
}

} // verus!
