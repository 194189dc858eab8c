//! Choosing and running the tasks of the task runner file.
use vstd::prelude::*;

use crate::cli::RunArgs;
use crate::husky::error::{HuskyError, HuskyResult, UnitHuskyResult};
use crate::husky::text::{eq_ignore_ascii_case, str_eq_ignore_ascii_case};
use crate::husky::globs::{
    glob_new, glob_parses, glob_set_builder_add, glob_set_builder_build, glob_set_builder_new,
    glob_set_builds, glob_set_is_match, glob_set_matches, glob_set_patterns, builder_patterns,
};

verus! {

/// The definition of a task from the `task-runner.json` file.
pub struct Task {
    /// The name of the task, can be used in the `cargo husky run -n (name)` command.
    pub name: String,
    /// The group name of the task, can be used to run a group of tasks with `cargo husky run -g
    /// (group)`
    pub group: Option<String>,
    /// The shell command to execute
    pub command: String,
    /// The current working directory to run the task within.
    pub cwd: Option<String>,
    /// The arguments to pass to the command.
    pub args: Option<Vec<String>>,
    /// A glob pattern of files that at least one must exist to run the task
    pub include_globs: Option<Vec<String>>,
    /// A glob pattern of files that if any exist the task will be skipped.
    pub exclude: Option<Vec<String>>,
}

/// The collection of tasks deserialized from the `task-runner.json` file.
pub struct TaskList {
    /// The JSON schema reference
    pub schema: String,
    /// The list of [Task] objects.
    pub tasks: Vec<Task>,
}

/// The task runner that the husky program uses.
pub struct HuskyTaskRunner;

/// The patterns of a list of globs.
pub open spec fn pattern_views(globs: Seq<String>) -> Seq<Seq<char>> {
    globs.map_values(|g: String| g@)
}

/// Every glob parses and together they build a glob set.
pub open spec fn globs_compile(patterns: Seq<Seq<char>>) -> bool {
    &&& forall|i: int| 0 <= i < patterns.len() ==> glob_parses(#[trigger] patterns[i])
    &&& glob_set_builds(patterns)
}

/// Some path is matched by the glob set built from `patterns`.
pub open spec fn some_path_matches(patterns: Seq<Seq<char>>, paths: Seq<String>) -> bool {
    exists|j: int| 0 <= j < paths.len() && glob_set_matches(patterns, #[trigger] paths[j]@)
}

/// Some single glob of `patterns` matches some path: a glob set matches a path
/// exactly when one of its globs does.
pub open spec fn some_glob_matches_some_path(patterns: Seq<Seq<char>>, paths: Seq<String>) -> bool {
    exists|i: int, j: int|
        0 <= i < patterns.len() && 0 <= j < paths.len() && glob_set_matches(
            seq![#[trigger] patterns[i]],
            #[trigger] paths[j]@,
        )
}

/// What the include and exclude globs of a task decide about running it.
pub enum FilterOutcome {
    /// The task may run.
    Pass,
    /// A glob of the task does not compile.
    GlobError,
    /// No staged file matches the include globs.
    MissingIncluded,
    /// A staged file matches the exclude globs.
    FoundExcluded,
}

/// The decision on a task's include and exclude globs against the staged files:
/// the include globs are looked at first, then the exclude globs. When the globs
/// compile, the task runs exactly when some staged file matches one of its
/// include globs (if it has any list of them) and no staged file matches one of
/// its exclude globs.
pub open spec fn filter_outcome(task: Task, staged: Seq<String>) -> FilterOutcome {
    let include_outcome = match task.include_globs {
        Some(inc) => if !globs_compile(pattern_views(inc@)) {
            Some(FilterOutcome::GlobError)
        } else if !some_glob_matches_some_path(pattern_views(inc@), staged) {
            Some(FilterOutcome::MissingIncluded)
        } else {
            None
        },
        None => None,
    };
    match include_outcome {
        Some(o) => o,
        None => match task.exclude {
            Some(exc) => if !globs_compile(pattern_views(exc@)) {
                FilterOutcome::GlobError
            } else if some_glob_matches_some_path(pattern_views(exc@), staged) {
                FilterOutcome::FoundExcluded
            } else {
                FilterOutcome::Pass
            },
            None => FilterOutcome::Pass,
        },
    }
}

impl HuskyTaskRunner {
    /// Tests whether at least one of the globs matches one of the paths.
    ///
    /// Fails with [HuskyError::Globset] when a glob does not parse or the globs
    /// do not build a glob set.
    pub fn should_run(&self, globs: &[String], paths: &[String]) -> (res: HuskyResult<bool>)
        ensures
            res is Ok <==> globs_compile(pattern_views(globs@)),
            res matches Ok(b) ==> b == some_path_matches(pattern_views(globs@), paths@),
            res matches Ok(b) ==> b == some_glob_matches_some_path(pattern_views(globs@), paths@),
            globs@.len() == 0 ==> res matches Ok(false),
            res matches Err(e) ==> e is Globset,
    {
        let ghost patterns = pattern_views(globs@);
        let mut builder = glob_set_builder_new();
        let mut i: usize = 0;
        while i < globs.len()
            invariant
                0 <= i <= globs.len(),
                patterns == pattern_views(globs@),
                builder_patterns(builder) == patterns.take(i as int),
                forall|k: int| 0 <= k < i ==> glob_parses(#[trigger] patterns[k]),
            decreases globs.len() - i,
        {
            match glob_new(globs[i].as_str()) {
                Ok(glob) => {
                    glob_set_builder_add(&mut builder, glob);
                },
                Err(e) => {
                    assert(!glob_parses(patterns[i as int]));
                    return Err(HuskyError::Globset(e));
                },
            }
            assert(patterns.take(i as int).push(patterns[i as int]) =~= patterns.take(i + 1));
            i = i + 1;
        }
        assert(patterns.take(globs.len() as int) =~= patterns);
        let matcher = match glob_set_builder_build(&builder) {
            Ok(m) => m,
            Err(e) => {
                return Err(HuskyError::Globset(e));
            },
        };
        let mut j: usize = 0;
        while j < paths.len()
            invariant
                0 <= j <= paths.len(),
                patterns == pattern_views(globs@),
                globs_compile(patterns),
                glob_set_patterns(matcher) == patterns,
                forall|k: int| 0 <= k < j ==> !glob_set_matches(patterns, #[trigger] paths@[k]@),
                forall|i: int, k: int|
                    0 <= i < patterns.len() && 0 <= k < j ==> !glob_set_matches(
                        seq![#[trigger] patterns[i]],
                        #[trigger] paths@[k]@,
                    ),
            decreases paths.len() - j,
        {
            let matched = glob_set_is_match(&matcher, paths[j].as_str());
            if matched {
                proof {
                    let i = choose|i: int|
                        0 <= i < patterns.len() && glob_set_matches(seq![#[trigger] patterns[i]], paths@[j as int]@);
                    assert(glob_set_matches(seq![patterns[i]], paths@[j as int]@));
                }
                return Ok(true);
            }
            assert forall|i: int, k: int|
                0 <= i < patterns.len() && 0 <= k < j + 1 implies !glob_set_matches(
                    seq![#[trigger] patterns[i]],
                    #[trigger] paths@[k]@,
                ) by {
                if k == j {
                    assert(!(0 <= i < glob_set_patterns(matcher).len() && glob_set_matches(
                        seq![glob_set_patterns(matcher)[i]],
                        paths@[j as int]@,
                    )));
                }
            }
            j = j + 1;
        }
        Ok(false)
    }

    /// Decides whether the task may run against the staged files: it is skipped
    /// when no staged file matches its include globs, or when a staged file
    /// matches its exclude globs.
    pub fn check_task_filters(&self, task: &Task, staged_files: &[String]) -> (res: UnitHuskyResult)
        ensures
            match filter_outcome(*task, staged_files@) {
                FilterOutcome::Pass => res is Ok,
                FilterOutcome::GlobError => res matches Err(e) && e is Globset,
                FilterOutcome::MissingIncluded => res matches Err(HuskyError::TaskSkipped(m))
                    && m@ == "Included file(s) not found"@,
                FilterOutcome::FoundExcluded => res matches Err(HuskyError::TaskSkipped(m))
                    && m@ == "Excluded file(s) found"@,
            },
            task.include_globs matches Some(inc) && inc@.len() == 0 ==> (res matches Err(
                HuskyError::TaskSkipped(m),
            ) && m@ == "Included file(s) not found"@),
            task.include_globs is None && (task.exclude matches Some(exc) && exc@.len() == 0)
                ==> res is Ok,
            res is Ok ==> (task.exclude matches Some(exc) ==> (globs_compile(pattern_views(exc@))
                && !some_glob_matches_some_path(pattern_views(exc@), staged_files@))),
            res is Ok ==> (task.include_globs matches Some(inc) ==> (globs_compile(
                pattern_views(inc@),
            ) && some_glob_matches_some_path(pattern_views(inc@), staged_files@))),
    {
        if let Some(globs) = &task.include_globs {
            let matched = self.should_run(globs.as_slice(), staged_files)?;
            if !matched {
                return Err(HuskyError::TaskSkipped(String::from_str("Included file(s) not found")));
            }
        }
        if let Some(exclude) = &task.exclude {
            let matched = self.should_run(exclude.as_slice(), staged_files)?;
            if matched {
                return Err(HuskyError::TaskSkipped(String::from_str("Excluded file(s) found")));
            }
        }
        Ok(())
    }
}

/// The task has the name, compared without regard to ASCII case.
pub open spec fn name_matches(task: Task, name: Seq<char>) -> bool {
    eq_ignore_ascii_case(task.name@, name)
}

/// The task belongs to the group, compared without regard to ASCII case.
pub open spec fn group_matches(task: Task, group: Seq<char>) -> bool {
    task.group matches Some(g) && eq_ignore_ascii_case(g@, group)
}

/// `i` is the first task that has the name.
pub open spec fn is_first_named(tasks: Seq<Task>, name: Seq<char>, i: int) -> bool {
    &&& 0 <= i < tasks.len()
    &&& name_matches(tasks[i], name)
    &&& forall|j: int| 0 <= j < i ==> !name_matches(#[trigger] tasks[j], name)
}

/// No task has the name.
pub open spec fn none_named(tasks: Seq<Task>, name: Seq<char>) -> bool {
    forall|j: int| 0 <= j < tasks.len() ==> !name_matches(#[trigger] tasks[j], name)
}

/// `selection` lists, in increasing order, exactly the tasks that belong to the group.
pub open spec fn is_group_selection(tasks: Seq<Task>, group: Seq<char>, selection: Seq<usize>) -> bool {
    &&& forall|k: int| 0 <= k < selection.len() ==> #[trigger] selection[k] < tasks.len()
    &&& forall|k: int| 0 <= k < selection.len() ==> group_matches(tasks[#[trigger] selection[k] as int], group)
    &&& forall|k1: int, k2: int| 0 <= k1 < k2 < selection.len() ==> #[trigger] selection[k1] < #[trigger] selection[k2]
    &&& forall|i: int| 0 <= i < tasks.len() && #[trigger] group_matches(tasks[i], group) ==> selection.contains(i as usize)
}

/// Every task, in order.
pub open spec fn all_tasks(n: nat) -> Seq<usize> {
    Seq::new(n, |i: int| i as usize)
}

/// Finds the first task with the name, compared without regard to ASCII case.
///
/// Fails with [HuskyError::TaskNotFound] when no task has that name.
pub fn find_task_by_name(tasks: &[Task], name: &str) -> (res: HuskyResult<usize>)
    ensures
        res matches Ok(i) ==> is_first_named(tasks@, name@, i as int),
        res is Err ==> (res matches Err(HuskyError::TaskNotFound) && none_named(tasks@, name@)),
{
    let mut i: usize = 0;
    while i < tasks.len()
        invariant
            0 <= i <= tasks.len(),
            forall|j: int| 0 <= j < i ==> !name_matches(#[trigger] tasks@[j], name@),
        decreases tasks.len() - i,
    {
        if str_eq_ignore_ascii_case(tasks[i].name.as_str(), name) {
            return Ok(i);
        }
        i = i + 1;
    }
    Err(HuskyError::TaskNotFound)
}

/// The tasks of the group, compared without regard to ASCII case, in the order of the list.
pub fn tasks_in_group(tasks: &[Task], group: &str) -> (res: Vec<usize>)
    ensures
        is_group_selection(tasks@, group@, res@),
{
    let mut selected: Vec<usize> = Vec::new();
    let mut i: usize = 0;
    while i < tasks.len()
        invariant
            0 <= i <= tasks.len(),
            forall|k: int| 0 <= k < selected@.len() ==> #[trigger] selected@[k] < i,
            forall|k: int| 0 <= k < selected@.len() ==> group_matches(tasks@[#[trigger] selected@[k] as int], group@),
            forall|k1: int, k2: int| 0 <= k1 < k2 < selected@.len() ==> #[trigger] selected@[k1] < #[trigger] selected@[k2],
            forall|j: int| 0 <= j < i && #[trigger] group_matches(tasks@[j], group@) ==> selected@.contains(j as usize),
        decreases tasks.len() - i,
    {
        let belongs = match &tasks[i].group {
            Some(g) => str_eq_ignore_ascii_case(g.as_str(), group),
            None => false,
        };
        if belongs {
            let ghost before = selected@;
            selected.push(i);
            assert forall|j: int| 0 <= j < i + 1 && #[trigger] group_matches(tasks@[j], group@) implies selected@.contains(j as usize) by {
                if j < i {
                    let k = choose|k: int| 0 <= k < before.len() && before[k] == j as usize;
                    assert(selected@[k] == j as usize);
                } else {
                    assert(selected@[before.len() as int] == i);
                }
            }
        }
        i = i + 1;
    }
    selected
}

/// Where a run of tasks stands.
pub struct RunProgress {
    /// The indices of the tasks to run, in order.
    pub queue: Seq<usize>,
    /// How many tasks of the queue have been passed over.
    pub position: int,
    /// The run has stopped on an error.
    pub stopped: bool,
    /// A skipped task lets the run go on.
    pub tolerate_skips: bool,
    /// The custom arguments passed to every task of the run, after the task's own.
    pub extra_args: Seq<String>,
}

/// The run of a list of tasks, one after another.
///
/// The program runs `next_task` and hands its result to `record`, until
/// `next_task` gives `None` (every task passed) or `record` gives
/// [RunStep::Stop].
pub struct TaskRun {
    queue: Vec<usize>,
    position: usize,
    stopped: bool,
    tolerate_skips: bool,
    extra_args: Vec<String>,
}

/// What follows the result of one task.
pub enum RunStep {
    /// The task succeeded: go on with the next one.
    Continue,
    /// The task was skipped for the reason given: go on with the next one.
    Skipped(String),
    /// The run ends with this error.
    Stop(HuskyError),
}

impl View for TaskRun {
    type V = RunProgress;

    closed spec fn view(&self) -> RunProgress {
        RunProgress {
            queue: self.queue@,
            position: self.position as int,
            stopped: self.stopped,
            tolerate_skips: self.tolerate_skips,
            extra_args: self.extra_args@,
        }
    }
}

/// The arguments that a task itself gives its command.
pub open spec fn task_arguments(task: Task) -> Seq<String> {
    match task.args {
        Some(a) => a@,
        None => Seq::empty(),
    }
}

/// The custom arguments of `husky run`, none when not given.
pub open spec fn custom_arguments(args: Option<Vec<String>>) -> Seq<String> {
    match args {
        Some(a) => a@,
        None => Seq::empty(),
    }
}

/// Appends copies of `items` to `out`.
fn append_strings(out: &mut Vec<String>, items: &Vec<String>)
    ensures
        final(out)@ == old(out)@ + items@,
{
    let mut i: usize = 0;
    while i < items.len()
        invariant
            0 <= i <= items@.len(),
            out@ == old(out)@ + items@.take(i as int),
        decreases items@.len() - i,
    {
        out.push(items[i].clone());
        assert(items@.take(i + 1) =~= items@.take(i as int).push(items@[i as int]));
        i = i + 1;
    }
    assert(items@.take(items@.len() as int) =~= items@);
}

/// Copies of `items`.
fn copy_strings(items: &Option<Vec<String>>) -> (res: Vec<String>)
    ensures
        res@ == custom_arguments(*items),
{
    let mut out: Vec<String> = Vec::new();
    if let Some(v) = items {
        append_strings(&mut out, v);
    }
    assert(out@ =~= custom_arguments(*items));
    out
}

/// The result of a task lets the run go on: the task succeeded, or it was
/// skipped and skips are tolerated.
pub open spec fn continues(result: HuskyResult<bool>, tolerate_skips: bool) -> bool {
    ||| result matches Ok(true)
    ||| (tolerate_skips && result matches Err(HuskyError::TaskSkipped(_)))
}

/// The run after the result of its current task.
pub open spec fn advance(p: RunProgress, result: HuskyResult<bool>) -> RunProgress {
    if p.stopped || p.position < 0 || p.position >= p.queue.len() {
        p
    } else if continues(result, p.tolerate_skips) {
        RunProgress { position: p.position + 1, ..p }
    } else {
        RunProgress { stopped: true, ..p }
    }
}

/// The run after the results of its tasks, one after another.
pub open spec fn replay(p: RunProgress, results: Seq<HuskyResult<bool>>) -> RunProgress
    decreases results.len(),
{
    if results.len() == 0 {
        p
    } else {
        replay(advance(p, results[0]), results.drop_first())
    }
}

/// The index of the first result that stops a run, or the number of results when none does.
pub open spec fn first_stop(results: Seq<HuskyResult<bool>>, tolerate_skips: bool) -> int
    decreases results.len(),
{
    if results.len() == 0 {
        0
    } else if !continues(results[0], tolerate_skips) {
        0
    } else {
        1 + first_stop(results.drop_first(), tolerate_skips)
    }
}

impl TaskRun {
    /// A run of the tasks of `queue`, in order; with `tolerate_skips` a skipped
    /// task does not end the run; every task gets `extra_args` after its own arguments.
    pub fn new(queue: Vec<usize>, tolerate_skips: bool, extra_args: Vec<String>) -> (res: Self)
        ensures
            res@ == (RunProgress {
                queue: queue@,
                position: 0,
                stopped: false,
                tolerate_skips,
                extra_args: extra_args@,
            }),
    {
        TaskRun { queue, position: 0, stopped: false, tolerate_skips, extra_args }
    }

    /// The arguments of a task's command in this run: the task's own
    /// arguments, then the run's custom arguments.
    pub fn command_arguments(&self, task: &Task) -> (res: Vec<String>)
        ensures
            res@ == task_arguments(*task) + self@.extra_args,
            match task.args {
                Some(own) => {
                    &&& res@.len() == own@.len() + self@.extra_args.len()
                    &&& forall|i: int| 0 <= i < own@.len() ==> #[trigger] res@[i] == own@[i]
                    &&& forall|j: int|
                        0 <= j < self@.extra_args.len() ==> res@[own@.len() + j]
                            == #[trigger] self@.extra_args[j]
                },
                None => res@ == self@.extra_args,
            },
    {
        let mut arguments: Vec<String> = Vec::new();
        if let Some(own) = &task.args {
            append_strings(&mut arguments, own);
        }
        append_strings(&mut arguments, &self.extra_args);
        arguments
    }

    /// The task to run now, if the run goes on.
    pub fn next_task(&self) -> (res: Option<usize>)
        ensures
            res == (if !self@.stopped && 0 <= self@.position < self@.queue.len() {
                Some(self@.queue[self@.position])
            } else {
                None::<usize>
            }),
    {
        if !self.stopped && self.position < self.queue.len() {
            Some(self.queue[self.position])
        } else {
            None
        }
    }

    /// Takes the result of the current task: whether it succeeded (`Ok(true)`),
    /// failed (`Ok(false)`, which stops the run with [HuskyError::TaskFailed]), or
    /// could not run (`Err`, which stops the run, unless it is a skip and skips are tolerated).
    pub fn record(&mut self, result: HuskyResult<bool>) -> (step: RunStep)
        requires
            !old(self)@.stopped,
            0 <= old(self)@.position < old(self)@.queue.len(),
        ensures
            final(self)@ == advance(old(self)@, result),
            match result {
                Ok(true) => step is Continue,
                Ok(false) => step matches RunStep::Stop(HuskyError::TaskFailed),
                Err(HuskyError::TaskSkipped(m)) => if old(self)@.tolerate_skips {
                    step == RunStep::Skipped(m)
                } else {
                    step == RunStep::Stop(HuskyError::TaskSkipped(m))
                },
                Err(e) => step == RunStep::Stop(e),
            },
    {
        let len = self.queue.len();
        assert(self.position < len);
        match result {
            Ok(true) => {
                self.position = self.position + 1;
                RunStep::Continue
            },
            Ok(false) => {
                self.stopped = true;
                RunStep::Stop(HuskyError::TaskFailed)
            },
            Err(HuskyError::TaskSkipped(m)) => {
                if self.tolerate_skips {
                    self.position = self.position + 1;
                    RunStep::Skipped(m)
                } else {
                    self.stopped = true;
                    RunStep::Stop(HuskyError::TaskSkipped(m))
                }
            },
            Err(e) => {
                self.stopped = true;
                RunStep::Stop(e)
            },
        }
    }
}

/// A run stops at the first task whose result is neither a success nor a
/// tolerated skip, and only there: every task before it has run, none after it.
/// When no result stops it, the run has passed every task whose result it took.
pub proof fn lemma_run_stops_at_first_failure(start: RunProgress, results: Seq<HuskyResult<bool>>)
    requires
        !start.stopped,
        0 <= start.position,
        start.position + results.len() <= start.queue.len(),
    ensures
        ({
            let end = replay(start, results);
            let k = first_stop(results, start.tolerate_skips);
            &&& 0 <= k <= results.len()
            &&& forall|i: int| 0 <= i < k ==> continues(#[trigger] results[i], start.tolerate_skips)
            &&& k < results.len() ==> !continues(results[k], start.tolerate_skips)
            &&& end.stopped <==> k < results.len()
            &&& end.position == start.position + k
            &&& end.queue == start.queue
            &&& end.tolerate_skips == start.tolerate_skips
        }),
    decreases results.len(),
{
    if results.len() > 0 {
        let next = advance(start, results[0]);
        if continues(results[0], start.tolerate_skips) {
            lemma_run_stops_at_first_failure(next, results.drop_first());
            let k = first_stop(results, start.tolerate_skips);
            assert forall|i: int| 0 <= i < k implies continues(#[trigger] results[i], start.tolerate_skips) by {
                if i > 0 {
                    assert(results[i] == results.drop_first()[i - 1]);
                }
            }
        } else {
            lemma_replay_stopped(next, results.drop_first());
        }
    }
}

/// A stopped run takes no more results.
pub proof fn lemma_replay_stopped(p: RunProgress, results: Seq<HuskyResult<bool>>)
    requires
        p.stopped,
    ensures
        replay(p, results) == p,
    decreases results.len(),
{
    if results.len() > 0 {
        lemma_replay_stopped(advance(p, results[0]), results.drop_first());
    }
}

/// Plans the run that `husky run` asks for: by name, the first task with that
/// name alone, where a skip ends the run; by group, the tasks of the group in
/// order; with neither, every task in order.
///
/// Fails with [HuskyError::TaskNotFound] when no task has the name asked for.
pub fn plan_run(tasks: &[Task], args: &RunArgs) -> (res: HuskyResult<TaskRun>)
    ensures
        res matches Ok(run) ==> run@.position == 0 && !run@.stopped,
        res matches Ok(run) ==> run@.extra_args == custom_arguments(args.args),
        match (args.name, args.group) {
            (Some(name), _) => match res {
                Ok(run) => run@.queue.len() == 1 && is_first_named(tasks@, name@, run@.queue[0] as int)
                    && !run@.tolerate_skips,
                Err(e) => e is TaskNotFound && none_named(tasks@, name@),
            },
            (None, Some(group)) => res matches Ok(run) && is_group_selection(tasks@, group@, run@.queue)
                && run@.tolerate_skips,
            (None, None) => res matches Ok(run) && run@.queue == all_tasks(tasks@.len())
                && run@.tolerate_skips,
        },
{
    match (&args.name, &args.group) {
        (Some(name), _) => {
            let i = find_task_by_name(tasks, name.as_str())?;
            let mut queue: Vec<usize> = Vec::new();
            queue.push(i);
            Ok(TaskRun::new(queue, false, copy_strings(&args.args)))
        },
        (None, Some(group)) => Ok(
            TaskRun::new(tasks_in_group(tasks, group.as_str()), true, copy_strings(&args.args)),
        ),
        (None, None) => {
            let mut queue: Vec<usize> = Vec::new();
            let mut i: usize = 0;
            while i < tasks.len()
                invariant
                    0 <= i <= tasks.len(),
                    queue@ == all_tasks(i as nat),
                decreases tasks.len() - i,
            {
                queue.push(i);
                i = i + 1;
            }
            Ok(TaskRun::new(queue, true, copy_strings(&args.args)))
        },
    }
}

/// The line of 80 `=` that frames the task list and the task headers.
pub open spec fn separator() -> Seq<char> {
    Seq::new(80, |_i: int| '=')
}

fn separator_line() -> (res: String)
    ensures
        res@ == separator(),
{
    let mut line = String::new();
    let mut i: usize = 0;
    while i < 80
        invariant
            i <= 80,
            line@ == Seq::new(i as nat, |_j: int| '='),
        decreases 80 - i,
    {
        line.append("=");
        proof {
            reveal_strlit("=");
        }
        assert(line@ =~= Seq::new((i + 1) as nat, |_j: int| '='));
        i = i + 1;
    }
    line
}

/// The group shown for a task: its group, or `[Unspecified]` when it has none.
pub open spec fn group_label(task: Task) -> Seq<char> {
    match task.group {
        Some(g) => g@,
        None => "[Unspecified]"@,
    }
}

/// The line that lists a task: its name and its group.
pub open spec fn task_line(task: Task) -> Seq<char> {
    "📋 "@ + task.name@ + " 👥 "@ + group_label(task)
}

/// The line that lists the task, with its group or `[Unspecified]`.
pub fn describe_task(task: &Task) -> (res: String)
    ensures
        res@ == task_line(*task),
        res@ == "📋 "@ + task.name@ + " 👥 "@ + match task.group {
            Some(g) => g@,
            None => "[Unspecified]"@,
        },
{
    let mut line = String::from_str("📋 ");
    line.append(task.name.as_str());
    line.append(" 👥 ");
    match &task.group {
        Some(g) => line.append(g.as_str()),
        None => line.append("[Unspecified]"),
    }
    line
}

/// The lines that `husky list` prints: a framed title, then one line per task, in order.
pub fn task_list_lines(task_list: &TaskList) -> (res: Vec<String>)
    ensures
        res@.len() == task_list.tasks@.len() + 3,
        res@[0]@ == separator(),
        res@[1]@ == "🚀 Husky Task List"@,
        res@[2]@ == separator(),
        forall|i: int| 0 <= i < task_list.tasks@.len() ==> res@[i + 3]@ == task_line(#[trigger] task_list.tasks@[i]),
        forall|i: int|
            0 <= i < task_list.tasks@.len() ==> res@[i + 3]@ == "📋 "@ + (#[trigger] task_list.tasks@[i]).name@
                + " 👥 "@ + match task_list.tasks@[i].group {
                Some(g) => g@,
                None => "[Unspecified]"@,
            },
{
    let mut lines: Vec<String> = Vec::new();
    lines.push(separator_line());
    lines.push(String::from_str("🚀 Husky Task List"));
    lines.push(separator_line());
    let mut i: usize = 0;
    while i < task_list.tasks.len()
        invariant
            0 <= i <= task_list.tasks@.len(),
            lines@.len() == i + 3,
            lines@[0]@ == separator(),
            lines@[1]@ == "🚀 Husky Task List"@,
            lines@[2]@ == separator(),
            forall|k: int| 0 <= k < i ==> lines@[k + 3]@ == task_line(#[trigger] task_list.tasks@[k]),
        decreases task_list.tasks@.len() - i,
    {
        lines.push(describe_task(&task_list.tasks[i]));
        i = i + 1;
    }
    lines
}

/// The lines printed before a task runs: an empty line, then the task's name framed.
pub fn task_header_lines(task_name: &str) -> (res: Vec<String>)
    ensures
        res@.len() == 4,
        res@[0]@ == Seq::<char>::empty(),
        res@[1]@ == separator(),
        res@[2]@ == "🚀 Running 📋 "@ + task_name@,
        res@[3]@ == separator(),
{
    let mut lines: Vec<String> = Vec::new();
    lines.push(String::new());
    lines.push(separator_line());
    let mut title = String::from_str("🚀 Running 📋 ");
    title.append(task_name);
    lines.push(title);
    lines.push(separator_line());
    lines
}

/// `prefix`, then `middle`, then `suffix`.
fn joined(prefix: &str, middle: &str, suffix: &str) -> (res: String)
    ensures
        res@ == prefix@ + middle@ + suffix@,
{
    let mut line = String::from_str(prefix);
    line.append(middle);
    line.append(suffix);
    line
}

/// The line printed when a task succeeded.
pub fn task_succeeded_line(task_name: &str) -> (res: String)
    ensures
        res@ == "✔️ 📋 "@ + task_name@ + " succeeded"@,
{
    joined("✔️ 📋 ", task_name, " succeeded")
}

/// The line printed when a task failed.
pub fn task_failed_line(task_name: &str) -> (res: String)
    ensures
        res@ == "🚫 📋 "@ + task_name@ + " failed"@,
{
    joined("🚫 📋 ", task_name, " failed")
}

/// The line printed when a task was skipped, with the reason.
pub fn task_skipped_line(task_name: &str, reason: &str) -> (res: String)
    ensures
        res@ == "↪️ 📋 "@ + task_name@ + " skipped: '"@ + reason@ + "'"@,
{
    let mut line = joined("↪️ 📋 ", task_name, " skipped: '");
    line.append(reason);
    line.append("'");
    line
}

/// The line printed when no task has the name asked for.
pub fn task_not_found_line(task_name: &str) -> (res: String)
    ensures
        res@ == "⚠️ 📋 "@ + task_name@ + " was not found"@,
{
    joined("⚠️ 📋 ", task_name, " was not found")
}

/// The line printed before the tasks of a group run.
pub fn group_preparing_line(group: &str) -> (res: String)
    ensures
        res@ == "⌛ Preparing to run tasks in group 👥 "@ + group@,
{
    let mut line = String::from_str("⌛ Preparing to run tasks in group 👥 ");
    line.append(group);
    line
}

/// The line printed when no task belongs to the group asked for.
pub fn group_not_found_line(group: &str) -> (res: String)
    ensures
        res@ == "⚠️ 👥 "@ + group@ + " was not found"@,
{
    joined("⚠️ 👥 ", group, " was not found")
}

impl TaskList {
    /// The task list that parsing the task runner file gave: a file that is
    /// not a valid task list is [HuskyError::InvalidTaskRunnerFile].
    pub fn from_parsed(parsed: Result<TaskList, serde_json::Error>) -> (res: HuskyResult<TaskList>)
        ensures
            match parsed {
                Ok(list) => res == Ok::<TaskList, HuskyError>(list),
                Err(_) => res matches Err(HuskyError::InvalidTaskRunnerFile),
            },
    {
        match parsed {
            Ok(list) => Ok(list),
            Err(_) => Err(HuskyError::InvalidTaskRunnerFile),
        }
    }

    /// The text of the task runner file, from whether it exists and what
    /// reading it gave: a file that is missing, whose existence could not be
    /// checked, or that could not be read, is [HuskyError::InvalidTaskRunnerFile].
    pub fn source_text(exists: HuskyResult<bool>, contents: Option<String>) -> (res: HuskyResult<String>)
        ensures
            match (exists, contents) {
                (Ok(true), Some(text)) => res == Ok::<String, HuskyError>(text),
                _ => res matches Err(HuskyError::InvalidTaskRunnerFile),
            },
    {
        let present = match exists {
            Ok(b) => b,
            Err(_) => false,
        };
        if !present {
            return Err(HuskyError::InvalidTaskRunnerFile);
        }
        match contents {
            Some(text) => Ok(text),
            None => Err(HuskyError::InvalidTaskRunnerFile),
        }
    }
}

/// A task whose exclude globs match a staged file never passes its filters,
/// whatever its include globs match.
pub proof fn lemma_excluded_match_blocks_the_task(task: Task, staged: Seq<String>)
    requires
        task.exclude matches Some(exc) && some_glob_matches_some_path(pattern_views(exc@), staged),
    ensures
        !(filter_outcome(task, staged) is Pass),
{
}

/// A task passes its filters only when its globs compile, one of its include
/// globs (if it has any list) matches a staged file, and none of its exclude globs does.
pub proof fn lemma_pass_needs_included_and_no_excluded_match(task: Task, staged: Seq<String>)
    requires
        filter_outcome(task, staged) is Pass,
    ensures
        task.include_globs matches Some(inc) ==> (globs_compile(pattern_views(inc@))
            && some_glob_matches_some_path(pattern_views(inc@), staged)),
        task.exclude matches Some(exc) ==> (globs_compile(pattern_views(exc@))
            && !some_glob_matches_some_path(pattern_views(exc@), staged)),
{
}

/// With compiling globs, a task passes exactly when an include glob (if any list)
/// matches a staged file and no exclude glob does.
pub proof fn lemma_pass_exactly_when_included_and_not_excluded(task: Task, staged: Seq<String>)
    requires
        task.include_globs matches Some(inc) ==> globs_compile(pattern_views(inc@)),
        task.exclude matches Some(exc) ==> globs_compile(pattern_views(exc@)),
    ensures
        (filter_outcome(task, staged) is Pass) <==> ((task.include_globs matches Some(inc)
            ==> some_glob_matches_some_path(pattern_views(inc@), staged)) && (task.exclude matches Some(
            exc,
        ) ==> !some_glob_matches_some_path(pattern_views(exc@), staged))),
{
}

/// A task's listing line is its name and its group (or `[Unspecified]`),
/// whatever its command, arguments or directory.
pub proof fn lemma_task_line_is_name_and_group(task: Task)
    ensures
        task_line(task) == "📋 "@ + task.name@ + " 👥 "@ + match task.group {
            Some(g) => g@,
            None => "[Unspecified]"@,
        },
{
}

/// Two tasks with the same name and group are listed alike.
pub proof fn lemma_task_line_depends_on_name_and_group(a: Task, b: Task)
    requires
        a.name@ == b.name@,
        a.group is None <==> b.group is None,
        a.group matches Some(ga) ==> (b.group matches Some(gb) && ga@ == gb@),
    ensures
        task_line(a) == task_line(b),
{
}

/// A task's command gets all of its own arguments, in full and in order,
/// then the custom arguments of the run.
pub proof fn lemma_command_arguments_keep_own_then_custom(task: Task, extra: Seq<String>)
    ensures
        ({
            let all = task_arguments(task) + extra;
            match task.args {
                Some(own) => {
                    &&& all.len() == own@.len() + extra.len()
                    &&& forall|i: int| 0 <= i < own@.len() ==> #[trigger] all[i] == own@[i]
                    &&& forall|j: int| 0 <= j < extra.len() ==> all[own@.len() + j] == #[trigger] extra[j]
                },
                None => all == extra,
            }
        }),
{
    match task.args {
        Some(own) => {
            assert(task_arguments(task) == own@);
        },
        None => {
            assert(task_arguments(task) + extra =~= extra);
        },
    }
}

} // verus!
