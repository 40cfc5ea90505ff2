//! The driver: one node benchmark for each endpoint of a list, in order.
//!
//! Like a run, the driver does no work itself. It says which endpoint to
//! benchmark next, and is told how that benchmark ended.

use vstd::prelude::*;
use vstd::string::StringExecFns;
use crate::error::{BenchmarkError, Failure};
use crate::span::Span;

verus! {

/// The endpoints that are benchmarked when none are given.
pub fn default_endpoints() -> (endpoints: Vec<String>)
    ensures
        endpoints@.len() == 2,
        endpoints@[0]@ == "mainnet.fuel.network"@,
        endpoints@[1]@ == "fuel.liquify.com/v1/graphql"@,
{
    let mut endpoints: Vec<String> = Vec::new();
    endpoints.push(String::from_str("mainnet.fuel.network"));
    endpoints.push(String::from_str("fuel.liquify.com/v1/graphql"));
    endpoints
}

/// The driver's place in its list of endpoints.
#[derive(Debug)]
pub struct Driver {
    /// The endpoints to benchmark, in order.
    pub endpoints: Vec<String>,
    /// How many of them have an outcome already. The benchmark of the next
    /// one is under way, unless none is left.
    pub done: usize,
}

/// A [`Driver`] in contracts, each endpoint by its characters.
pub struct DriverView {
    pub endpoints: Seq<Seq<char>>,
    pub done: nat,
}

/// One line for the caller to log.
#[derive(Debug, PartialEq, Eq)]
pub enum DriverNote {
    Starting,
    /// The benchmark of this endpoint begins.
    Benchmarking(String),
    /// A benchmark ended well, after this long.
    ResponseTime(Span),
    /// A benchmark failed, with this message.
    Error(String),
}

/// A [`DriverNote`] in contracts, time in nanoseconds.
pub enum DriverNoteView {
    Starting,
    Benchmarking(Seq<char>),
    ResponseTime(nat),
    Error(Seq<char>),
}

/// What the caller is to do next.
#[derive(Debug, PartialEq, Eq)]
pub enum DriverAction {
    /// Run the node benchmark against this endpoint and report its outcome.
    Benchmark(String),
    /// Every endpoint has its outcome: leave, with success, whatever the
    /// outcomes were.
    Exit,
    /// The mnemonic is missing: stop, with a failure, before any endpoint is
    /// contacted.
    Halt,
    /// No outcome was awaited; nothing is to be done.
    Ignore,
}

/// A [`DriverAction`] in contracts.
pub enum DriverActionView {
    Benchmark(Seq<char>),
    Exit,
    Halt,
    Ignore,
}

/// One move of the driver: the driver afterwards, what to log, what to do.
#[derive(Debug)]
pub struct DriverStep {
    pub next: Driver,
    pub notes: Vec<DriverNote>,
    pub action: DriverAction,
}

/// A [`DriverStep`] in contracts.
pub struct DriverStepView {
    pub next: DriverView,
    pub notes: Seq<DriverNoteView>,
    pub action: DriverActionView,
}

impl View for Driver {
    type V = DriverView;

    open spec fn view(&self) -> DriverView {
        DriverView {
            endpoints: self.endpoints@.map_values(|url: String| url@),
            done: self.done as nat,
        }
    }
}

impl View for DriverNote {
    type V = DriverNoteView;

    open spec fn view(&self) -> DriverNoteView {
        match self {
            DriverNote::Starting => DriverNoteView::Starting,
            DriverNote::Benchmarking(url) => DriverNoteView::Benchmarking(url@),
            DriverNote::ResponseTime(elapsed) => DriverNoteView::ResponseTime(elapsed.nanos()),
            DriverNote::Error(message) => DriverNoteView::Error(message@),
        }
    }
}

impl View for DriverAction {
    type V = DriverActionView;

    open spec fn view(&self) -> DriverActionView {
        match self {
            DriverAction::Benchmark(url) => DriverActionView::Benchmark(url@),
            DriverAction::Exit => DriverActionView::Exit,
            DriverAction::Halt => DriverActionView::Halt,
            DriverAction::Ignore => DriverActionView::Ignore,
        }
    }
}

impl View for DriverStep {
    type V = DriverStepView;

    open spec fn view(&self) -> DriverStepView {
        DriverStepView {
            next: self.next@,
            notes: self.notes@.map_values(|note: DriverNote| note@),
            action: self.action@,
        }
    }
}

/// The outcome of a benchmark in contracts: the elapsed nanoseconds, or the
/// failure.
pub open spec fn outcome_view(outcome: Result<Span, BenchmarkError>) -> Result<nat, Failure> {
    match outcome {
        Ok(elapsed) => Ok(elapsed.nanos()),
        Err(error) => Err(error@),
    }
}

/// The one line that reports an outcome.
pub open spec fn outcome_note(outcome: Result<nat, Failure>) -> DriverNoteView {
    match outcome {
        Ok(elapsed) => DriverNoteView::ResponseTime(elapsed),
        Err(failure) => DriverNoteView::Error(failure.message()),
    }
}

/// What the driver asks for once `done` endpoints have their outcome, and
/// the line that announces it, if there is one.
pub open spec fn driver_turns_to(endpoints: Seq<Seq<char>>, done: nat) -> (
    Seq<DriverNoteView>,
    DriverActionView,
) {
    if done < endpoints.len() {
        (
            seq![DriverNoteView::Benchmarking(endpoints[done as int])],
            DriverActionView::Benchmark(endpoints[done as int]),
        )
    } else {
        (seq![], DriverActionView::Exit)
    }
}

/// The start of the driver on `endpoints`. Without a mnemonic it halts and
/// is left with nothing to do; with one it turns to the first endpoint.
pub open spec fn driver_start(endpoints: Seq<Seq<char>>, mnemonic: Option<Seq<char>>)
    -> DriverStepView {
    if mnemonic is None {
        DriverStepView {
            next: DriverView { endpoints, done: endpoints.len() },
            notes: seq![],
            action: DriverActionView::Halt,
        }
    } else {
        DriverStepView {
            next: DriverView { endpoints, done: 0 },
            notes: seq![DriverNoteView::Starting] + driver_turns_to(endpoints, 0).0,
            action: driver_turns_to(endpoints, 0).1,
        }
    }
}

/// One move of the driver: what `driver` does when the benchmark under way
/// ends with `outcome`. It reports the outcome in one line and turns to the
/// next endpoint, whether the outcome is a success or a failure. With no
/// benchmark under way it changes nothing.
pub open spec fn driver_step(driver: DriverView, outcome: Result<nat, Failure>) -> DriverStepView {
    if driver.done < driver.endpoints.len() {
        DriverStepView {
            next: DriverView { endpoints: driver.endpoints, done: driver.done + 1 },
            notes: seq![outcome_note(outcome)] + driver_turns_to(
                driver.endpoints,
                driver.done + 1,
            ).0,
            action: driver_turns_to(driver.endpoints, driver.done + 1).1,
        }
    } else {
        DriverStepView { next: driver, notes: seq![], action: DriverActionView::Ignore }
    }
}

impl Driver {
    /// Starts the driver on `endpoints`, given the mnemonic if one was found.
    pub fn start(endpoints: Vec<String>, mnemonic: Option<&str>) -> (out: DriverStep)
        ensures
            out@ == driver_start(
                endpoints@.map_values(|url: String| url@),
                match mnemonic {
                    Some(phrase) => Some(phrase@),
                    None => None,
                },
            ),
    {
        let ghost urls = endpoints@.map_values(|url: String| url@);
        match mnemonic {
            None => {
                let done = endpoints.len();
                let out = DriverStep {
                    next: Driver { endpoints, done },
                    notes: Vec::new(),
                    action: DriverAction::Halt,
                };
                assert(out@.notes =~= seq![]);
                out
            },
            Some(_) => {
                let mut notes: Vec<DriverNote> = Vec::new();
                notes.push(DriverNote::Starting);
                let action = Driver::turn_to(&endpoints, 0, &mut notes);
                let out = DriverStep { next: Driver { endpoints, done: 0 }, notes, action };
                assert(out@.notes =~= seq![DriverNoteView::Starting] + driver_turns_to(urls, 0).0);
                out
            },
        }
    }

    /// Tells the driver how the benchmark under way ended.
    pub fn step(self, outcome: Result<Span, BenchmarkError>) -> (out: DriverStep)
        ensures
            out@ == driver_step(self@, outcome_view(outcome)),
    {
        let ghost urls = self@.endpoints;
        if self.done < self.endpoints.len() {
            let note = match outcome {
                Ok(elapsed) => DriverNote::ResponseTime(elapsed),
                Err(error) => DriverNote::Error(error.message()),
            };
            assert(note@ == outcome_note(outcome_view(outcome)));
            let mut notes: Vec<DriverNote> = Vec::new();
            notes.push(note);
            let done = self.done + 1;
            let action = Driver::turn_to(&self.endpoints, done, &mut notes);
            let out = DriverStep { next: Driver { endpoints: self.endpoints, done }, notes, action };
            assert(out@.notes =~= seq![outcome_note(outcome_view(outcome))] + driver_turns_to(
                urls,
                done as nat,
            ).0);
            out
        } else {
            let out = DriverStep { next: self, notes: Vec::new(), action: DriverAction::Ignore };
            assert(out@.notes =~= seq![]);
            out
        }
    }

    /// Whether every endpoint has its outcome.
    pub fn is_finished(&self) -> (finished: bool)
        ensures
            finished == (self@.done >= self@.endpoints.len()),
    {
        self.done >= self.endpoints.len()
    }

    fn turn_to(endpoints: &Vec<String>, done: usize, notes: &mut Vec<DriverNote>) -> (action:
        DriverAction)
        ensures
            final(notes)@.map_values(|note: DriverNote| note@) == old(notes)@.map_values(
                |note: DriverNote| note@,
            ) + driver_turns_to(endpoints@.map_values(|url: String| url@), done as nat).0,
            action@ == driver_turns_to(endpoints@.map_values(|url: String| url@), done as nat).1,
    {
        let ghost before = notes@.map_values(|note: DriverNote| note@);
        if done < endpoints.len() {
            notes.push(DriverNote::Benchmarking(endpoints[done].clone()));
            assert(notes@.map_values(|note: DriverNote| note@) =~= before + seq![
                DriverNoteView::Benchmarking(endpoints@[done as int]@),
            ]);
            DriverAction::Benchmark(endpoints[done].clone())
        } else {
            assert(notes@.map_values(|note: DriverNote| note@) =~= before + seq![]);
            DriverAction::Exit
        }
    }
}

} // verus!
