//! The registry of test cases and the harness that runs them.
//!
//! A run goes through the registry once: every case registered so far
//! becomes one trial, in the order of registration, and each trial drives
//! its case to completion on the executor. A case passes when its body
//! completes and fails when its body panics. A failure belongs to its case
//! alone; the cases after it still run.

use crate::runtime::{
    executor_kept, handle_block_on, init_runtime, runtime, runtime_handle, ExecutorError,
    RuntimeSlot,
};
use libtest_mimic::{Arguments, Failed, Trial};
use std::future::Future;
use tokio::runtime::Handle;
use vstd::future::FutureAdditionalSpecFns;
use vstd::prelude::*;

verus! {

/// A test case registered with the harness: a name, and a body that makes
/// the future to run.
pub struct TestCase<B> {
    pub name: &'static str,
    pub func: B,
}

/// The test cases registered so far, in the order of registration.
///
/// Cases are only ever added. A case in the registry is never changed or
/// taken out again; the harness takes the registry whole.
pub struct Registry<B> {
    cases: Vec<TestCase<B>>,
}

impl<B> View for Registry<B> {
    type V = Seq<TestCase<B>>;

    closed spec fn view(&self) -> Seq<TestCase<B>> {
        self.cases@
    }
}

impl<B> Registry<B> {
    /// A registry without cases.
    pub fn new() -> (registry: Registry<B>)
        ensures
            registry@ == Seq::<TestCase<B>>::empty(),
    {
        Registry { cases: Vec::new() }
    }

    /// Adds `case` behind the cases that are there.
    pub fn register(&mut self, case: TestCase<B>)
        ensures
            final(self)@ == old(self)@.push(case),
    {
        self.cases.push(case);
    }

    /// How many cases are registered.
    pub fn len(&self) -> (count: usize)
        ensures
            count == self@.len(),
    {
        self.cases.len()
    }

    /// The name of the case registered at `index`, counting from zero, or
    /// `None` where fewer cases are registered.
    pub fn name_at(&self, index: usize) -> (name: Option<&'static str>)
        ensures
            index < self@.len() ==> name == Some(self@[index as int].name),
            index >= self@.len() ==> name is None,
    {
        if index < self.cases.len() {
            Some(self.cases[index].name)
        } else {
            None
        }
    }
}

/// The names of `cases`, in their order.
pub open spec fn case_names<B>(cases: Seq<TestCase<B>>) -> Seq<Seq<char>> {
    Seq::new(cases.len(), |i: int| cases[i].name@)
}

/// `libtest_mimic::Trial`, one test as the runner takes it.
#[verifier::external_type_specification]
#[verifier::external_body]
pub struct ExTrial(Trial);

/// `libtest_mimic::Arguments`, the command-line options of the runner,
/// passed on unread.
#[verifier::external_type_specification]
#[verifier::external_body]
pub struct ExArguments(Arguments);

/// `libtest_mimic::Failed`, the runner's mark of a failed trial.
#[verifier::external_type_specification]
#[verifier::external_body]
pub struct ExFailed(Failed);

/// Whether `libtest_mimic::Arguments` asks for a listing only: its `list`
/// field, which `--list` on the command line sets.
pub uninterp spec fn listing_only(args: Arguments) -> bool;

/// The number of threads that `libtest_mimic::Arguments` allows for running
/// trials, where it names one: its `test_threads` field, which
/// `--test-threads` on the command line sets.
pub uninterp spec fn thread_limit(args: Arguments) -> Option<usize>;

/// Whether `libtest_mimic::Arguments` sends the output to a log file: whether
/// its `logfile` field, which `--logfile` on the command line sets, names a
/// path.
pub uninterp spec fn logs_to_file(args: Arguments) -> bool;

/// What `libtest_mimic::Trial::name` returns: the name the trial is listed,
/// filtered and reported under.
pub uninterp spec fn trial_name(trial: Trial) -> Seq<char>;

/// The names of `trials`, in their order.
pub open spec fn trial_names(trials: Seq<Trial>) -> Seq<Seq<char>> {
    Seq::new(trials.len(), |i: int| trial_name(trials[i]))
}

/// Whether the harness can hand `args` to the runner: they leave at least one
/// thread to run trials on, and they send the output to no log file.
///
/// Without a thread the runner waits for results that never come, and a log
/// file is opened by the runner itself, which aborts where that fails.
pub open spec fn runnable(args: Arguments) -> bool {
    thread_limit(args) != Some(0usize) && !logs_to_file(args)
}

/// Why a run of the harness did not take place.
#[derive(Debug)]
pub enum HarnessError {
    /// The arguments leave no thread to run the trials on.
    NoThreads,
    /// The arguments send the output to a log file.
    LogFile,
    /// No executor could be had.
    Executor(ExecutorError),
}

/// The tally of one run of the harness.
#[derive(Clone, Copy, Debug, PartialEq, Eq)]
pub struct Report {
    /// Trials that the name filters of the command line left out.
    pub filtered_out: u64,
    /// Trials that ran and completed.
    pub passed: u64,
    /// Trials that ran and failed.
    pub failed: u64,
    /// Trials that were not run because they are ignored.
    pub ignored: u64,
    /// Benchmarks that ran and were measured.
    pub measured: u64,
}

/// The exit code of a run in which a trial failed.
pub const FAILURE_EXIT_CODE: i32 = 101;

impl Report {
    /// The number of trials that the report accounts for.
    pub open spec fn total(&self) -> int {
        self.filtered_out + self.passed + self.failed + self.ignored + self.measured
    }

    /// Whether every trial of the run was run as a test: none was filtered
    /// out, ignored or measured as a benchmark.
    pub open spec fn all_ran(&self) -> bool {
        self.filtered_out == 0 && self.ignored == 0 && self.measured == 0
    }

    /// The exit code that the report calls for.
    pub open spec fn status(&self) -> int {
        if self.failed > 0 {
            FAILURE_EXIT_CODE as int
        } else {
            0
        }
    }

    /// Whether any trial failed.
    pub fn has_failed(&self) -> (failed: bool)
        ensures
            failed == (self.failed > 0),
    {
        self.failed > 0
    }

    /// The code for the process to exit with: zero when no trial failed,
    /// [`FAILURE_EXIT_CODE`] otherwise.
    pub fn exit_code(&self) -> (code: i32)
        ensures
            code == self.status(),
            code != 0 <==> self.failed > 0,
    {
        if self.has_failed() {
            FAILURE_EXIT_CODE
        } else {
            0
        }
    }
}

/// Runs the future of one case to completion on the executor behind
/// `handle` and passes on what it resolved to. A body that completes is a
/// pass; a failing body never gets here, it panics on the way.
fn run_case<Fut: Future>(handle: &Handle, body: Fut) -> (outcome: Result<Fut::Output, Failed>)
    ensures
        outcome == Ok::<Fut::Output, Failed>(body@),
{
    Ok(handle_block_on(handle, body))
}

/// The `list` field of `libtest_mimic::Arguments`.
#[verifier::external_body]
fn asks_for_listing(args: &Arguments) -> (listing: bool)
    ensures
        listing == listing_only(*args),
{
    args.list
}

/// The `test_threads` field of `libtest_mimic::Arguments`.
#[verifier::external_body]
fn test_threads(args: &Arguments) -> (limit: Option<usize>)
    ensures
        limit == thread_limit(*args),
{
    args.test_threads
}

/// Whether the `logfile` field of `libtest_mimic::Arguments` names a path.
#[verifier::external_body]
fn has_logfile(args: &Arguments) -> (logging: bool)
    ensures
        logging == logs_to_file(*args),
{
    args.logfile.is_some()
}

/// `libtest_mimic::Trial::test`: a trial that is a test, not a benchmark,
/// under the name given. When the runner gets to it, the trial calls `func`
/// and hands the future to [`run_case`].
#[verifier::external_body]
fn new_trial<B, Fut>(name: &'static str, func: B, handle: Handle) -> (trial: Trial) where
    B: FnOnce() -> Fut + Send + 'static,
    Fut: Future<Output = ()>,

    ensures
        trial_name(trial) == name@,
{
    Trial::test(name, move || run_case(&handle, func()))
}

/// `libtest_mimic::run`: filters the trials by the arguments, runs those
/// that are left, prints the outcome of each and a summary, and returns the
/// counts.
///
/// Every trial handed in is counted once, as filtered out, passed, failed,
/// ignored or measured. The one exception is a run that was asked only to
/// list the trials: it prints their names, runs none and counts none.
///
/// Two kinds of arguments are left out. With a thread limit of zero the
/// runner starts no worker and waits for ever for the results. With a log
/// file it opens the file itself and aborts with a panic where it cannot.
///
/// The call aborts with a panic where the standard output cannot be written
/// or the system has no thread left for a worker.
#[verifier::external_body]
fn run_trials(args: &Arguments, trials: Vec<Trial>) -> (report: Report)
    requires
        thread_limit(*args) != Some(0usize),
        !logs_to_file(*args),
    ensures
        report.total() == if listing_only(*args) { 0 } else { trials@.len() as int },
{
    let conclusion = libtest_mimic::run(args, trials);
    Report {
        filtered_out: conclusion.num_filtered_out,
        passed: conclusion.num_passed,
        failed: conclusion.num_failed,
        ignored: conclusion.num_ignored,
        measured: conclusion.num_measured,
    }
}

/// Turns the registered cases into trials: one trial per case, in the order
/// of registration, each under the name of its case and bound to the
/// executor in the slot.
pub fn collect_tests<B, Fut>(registry: Registry<B>, executor: &RuntimeSlot) -> (trials: Vec<
    Trial,
>) where
    B: FnOnce() -> Fut + Send + 'static,
    Fut: Future<Output = ()>,

    requires
        executor@ is Some,
    ensures
        trials@.len() == registry@.len(),
        trial_names(trials@) == case_names(registry@),
{
    let rt = runtime(executor);
    let mut trials: Vec<Trial> = Vec::new();
    for case in it: registry.cases.into_iter()
        invariant
            trials@.len() == it.index(),
            forall|i: int|
                0 <= i < it.index() ==> trial_name(#[trigger] trials@[i]) == it.seq()[i].name@,
    {
        let trial = new_trial(case.name, case.func, runtime_handle(rt));
        trials.push(trial);
    }
    assert(trial_names(trials@) =~= case_names(registry@));
    trials
}

/// Tells whether the harness can run with `args`, and if not, why not.
pub fn check_arguments(args: &Arguments) -> (verdict: Result<(), HarnessError>)
    ensures
        verdict is Ok <==> runnable(*args),
        thread_limit(*args) == Some(0usize) ==> (verdict matches Err(error) && error is NoThreads),
        thread_limit(*args) != Some(0usize) && logs_to_file(*args) ==> (verdict matches Err(error)
            && error is LogFile),
{
    match test_threads(args) {
        Some(limit) => {
            if limit == 0 {
                return Err(HarnessError::NoThreads);
            }
        },
        None => {},
    }
    if has_logfile(args) {
        return Err(HarnessError::LogFile);
    }
    Ok(())
}

/// How many of `cases` registered cases the report of a run with `args`
/// accounts for: all of them, or none where `args` ask only for a listing.
pub fn accounted_for(args: &Arguments, cases: usize) -> (count: usize)
    ensures
        count == if listing_only(*args) {
            0
        } else {
            cases as int
        },
{
    if asks_for_listing(args) {
        0
    } else {
        cases
    }
}

/// Runs every registered case once on the executor in the slot and returns
/// the tally.
///
/// The cases are collected into trials and handed to the runner together
/// with `args`. The report accounts for every registered case, a failing one
/// as failed, and the cases behind a failing one still run. Where `args`
/// ask only for a listing, no case runs and the report counts none.
///
/// The arguments must be such as [`check_arguments`] accepts. Call it from a
/// thread that is not itself running a task of an executor, or let the
/// arguments leave the trials to threads of their own.
pub fn run_registered<B, Fut>(
    args: &Arguments,
    registry: Registry<B>,
    executor: &RuntimeSlot,
) -> (report: Report) where
    B: FnOnce() -> Fut + Send + 'static,
    Fut: Future<Output = ()>,

    requires
        executor@ is Some,
        thread_limit(*args) != Some(0usize),
        !logs_to_file(*args),
    ensures
        listing_only(*args) ==> report.total() == 0,
        !listing_only(*args) ==> report.total() == registry@.len(),
{
    let trials = collect_tests(registry, executor);
    run_trials(args, trials)
}

/// Runs every registered case once and returns the tally.
///
/// The arguments are checked first: where [`check_arguments`] refuses them,
/// nothing is built or run and its error is returned. Then the executor is
/// built if the slot is empty; if it cannot be built, no case runs, the slot
/// stays empty and the refusal is returned. With arguments that pass, on a
/// slot that holds an executor, the run cannot fail, and the executor stays
/// the one it was. The run itself is that of [`run_registered`].
pub fn run_tests<B, Fut>(
    args: &Arguments,
    registry: Registry<B>,
    executor: &mut RuntimeSlot,
) -> (outcome: Result<Report, HarnessError>) where
    B: FnOnce() -> Fut + Send + 'static,
    Fut: Future<Output = ()>,

    ensures
        executor_kept(old(executor)@, final(executor)@),
        !runnable(*args) ==> outcome is Err && final(executor)@ == old(executor)@,
        thread_limit(*args) == Some(0usize) ==> (outcome matches Err(error) && error is NoThreads),
        thread_limit(*args) != Some(0usize) && logs_to_file(*args) ==> (outcome matches Err(error)
            && error is LogFile),
        runnable(*args) ==> (outcome matches Err(error) ==> error is Executor),
        runnable(*args) && old(executor)@ is Some ==> outcome is Ok,
        runnable(*args) ==> (outcome is Ok <==> final(executor)@ is Some),
        outcome matches Ok(report) ==> report.total() == if listing_only(*args) {
            0
        } else {
            registry@.len() as int
        },
{
    match check_arguments(args) {
        Ok(_) => {},
        Err(error) => {
            return Err(error);
        },
    }
    match init_runtime(executor) {
        Ok(_) => {},
        Err(error) => {
            return Err(HarnessError::Executor(error));
        },
    }
    Ok(run_registered(args, registry, executor))
}

/// The entry point for a test framework that hands its runner a list of
/// markers. The markers carry nothing: whatever they are, the run is that of
/// [`run_tests`] on the registry.
pub fn test_runner<B, Fut>(
    _markers: &[&()],
    args: &Arguments,
    registry: Registry<B>,
    executor: &mut RuntimeSlot,
) -> (outcome: Result<Report, HarnessError>) where
    B: FnOnce() -> Fut + Send + 'static,
    Fut: Future<Output = ()>,

    ensures
        executor_kept(old(executor)@, final(executor)@),
        !runnable(*args) ==> outcome is Err && final(executor)@ == old(executor)@,
        thread_limit(*args) == Some(0usize) ==> (outcome matches Err(error) && error is NoThreads),
        thread_limit(*args) != Some(0usize) && logs_to_file(*args) ==> (outcome matches Err(error)
            && error is LogFile),
        runnable(*args) ==> (outcome matches Err(error) ==> error is Executor),
        runnable(*args) && old(executor)@ is Some ==> outcome is Ok,
        runnable(*args) ==> (outcome is Ok <==> final(executor)@ is Some),
        outcome matches Ok(report) ==> report.total() == if listing_only(*args) {
            0
        } else {
            registry@.len() as int
        },
{
    run_tests(args, registry, executor)
}

/// A run in which every case ran as a test reports as many passes as cases
/// did not fail, and calls for a non-zero exit code exactly if a case
/// failed.
pub proof fn lemma_full_run(report: Report, cases: nat)
    requires
        report.total() == cases,
        report.all_ran(),
    ensures
        report.failed <= cases,
        report.passed == cases - report.failed,
        report.status() != 0 <==> report.failed > 0,
{
}

/// The order of registration does not change what the harness runs: two
/// registries that hold the same cases, in whatever order, hold equally many
/// and under the same names.
pub proof fn lemma_registration_order<B>(first: Seq<TestCase<B>>, second: Seq<TestCase<B>>)
    requires
        first.to_multiset() == second.to_multiset(),
    ensures
        first.len() == second.len(),
        case_names(first).to_multiset() == case_names(second).to_multiset(),
    decreases first.len(),
{
    broadcast use vstd::multiset::group_multiset_axioms;

    vstd::seq_lib::to_multiset_len(first);
    vstd::seq_lib::to_multiset_len(second);
    if first.len() == 0 {
        assert(case_names(first) =~= case_names(second));
    } else {
        let last = first.last();
        let front = first.drop_last();
        assert(first =~= front.push(last));
        vstd::seq_lib::to_multiset_build(front, last);
        vstd::seq_lib::to_multiset_contains(second, last);
        let at = choose|at: int| 0 <= at < second.len() && second[at] == last;
        let rest = second.remove(at);
        vstd::seq_lib::to_multiset_remove(second, at);
        assert(front.to_multiset() =~= rest.to_multiset());
        lemma_registration_order(front, rest);
        assert(case_names(first) =~= case_names(front).push(last.name@));
        assert(case_names(second) =~= case_names(rest).insert(at, last.name@));
        vstd::seq_lib::to_multiset_build(case_names(front), last.name@);
        vstd::seq_lib::to_multiset_insert(case_names(rest), at, last.name@);
    }
}

} // verus!
