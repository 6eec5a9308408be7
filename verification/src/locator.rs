//! Where the worker is: which executable runs it and where its entry script
//! lies.
//!
//! The locator does not look at the disk itself. It names one path at a time,
//! is told whether that path exists, and goes on from the answer until the
//! worker is resolved or the search has failed.

use crate::paths::{child, join, lemma_parent_is_shorter, parent, parent_of, split, split_at_each};
use crate::schema::views_of;
use vstd::prelude::*;

verus! {

/// The directory, below a base directory, that holds the named environments.
pub const ENVIRONMENTS_DIR: &'static str = "envs";

/// The directory, below the project's root, that holds the worker.
pub const WORKER_DIR: &'static str = "python";

/// The worker's entry script.
pub const ENTRY_SCRIPT: &'static str = "main.py";

/// How paths are written on a platform, and what the worker's runtime is called there.
#[derive(Debug, PartialEq, Eq)]
pub struct Layout {
    /// Stands between the directories of a path.
    pub separator: char,
    /// Stands between the directories of the search path.
    pub list_separator: char,
    /// The file name of the runtime's executable.
    pub executable: String,
    /// The bare command to fall back on; whether it exists shows when it is started.
    pub fallback: String,
}

/// What a [`Layout`] holds.
pub struct LayoutValue {
    pub separator: char,
    pub list_separator: char,
    pub executable: Seq<char>,
    pub fallback: Seq<char>,
}

impl View for Layout {
    type V = LayoutValue;

    open spec fn view(&self) -> LayoutValue {
        LayoutValue {
            separator: self.separator,
            list_separator: self.list_separator,
            executable: self.executable@,
            fallback: self.fallback@,
        }
    }
}

impl Layout {
    /// The layout of Windows: `\\` in paths, `;` in lists, `python.exe`, and
    /// `python` to fall back on.
    pub fn windows() -> (r: Layout)
        ensures
            r@ == (LayoutValue {
                separator: '\\',
                list_separator: ';',
                executable: "python.exe"@,
                fallback: "python"@,
            }),
    {
        Layout {
            separator: '\\',
            list_separator: ';',
            executable: "python.exe".to_owned(),
            fallback: "python".to_owned(),
        }
    }

    /// The layout of Unix: `/` in paths, `:` in lists, and `python3` both as the
    /// executable and to fall back on.
    pub fn unix() -> (r: Layout)
        ensures
            r@ == (LayoutValue {
                separator: '/',
                list_separator: ':',
                executable: "python3"@,
                fallback: "python3"@,
            }),
    {
        Layout {
            separator: '/',
            list_separator: ':',
            executable: "python3".to_owned(),
            fallback: "python3".to_owned(),
        }
    }
}

/// What the surroundings of the process say about the worker's runtime.
#[derive(Debug, PartialEq, Eq)]
pub struct Environment {
    /// The directory of the active environment, where one is declared.
    pub prefix: Option<String>,
    /// The name of the active environment, where one is declared.
    pub active_name: Option<String>,
    /// The base directory below which the named environments lie.
    pub base: Option<String>,
    /// The search path for executables.
    pub search_path: Option<String>,
    /// The directory the process works in.
    pub working_directory: String,
}

/// What an [`Environment`] holds.
pub struct EnvironmentValue {
    pub prefix: Option<Seq<char>>,
    pub active_name: Option<Seq<char>>,
    pub base: Option<Seq<char>>,
    pub search_path: Option<Seq<char>>,
    pub working_directory: Seq<char>,
}

/// The characters of an optional string.
pub open spec fn text_of(s: Option<String>) -> Option<Seq<char>> {
    match s {
        Some(s) => Some(s@),
        None => None,
    }
}

impl View for Environment {
    type V = EnvironmentValue;

    open spec fn view(&self) -> EnvironmentValue {
        EnvironmentValue {
            prefix: text_of(self.prefix),
            active_name: text_of(self.active_name),
            base: text_of(self.base),
            search_path: text_of(self.search_path),
            working_directory: self.working_directory@,
        }
    }
}

/// A worker that was found.
#[derive(Debug, PartialEq, Eq)]
pub struct ResolvedWorkerPath {
    pub executable_path: String,
    pub script_path: String,
    pub working_directory: String,
}

/// What a [`ResolvedWorkerPath`] holds.
pub struct ResolvedValue {
    pub executable_path: Seq<char>,
    pub script_path: Seq<char>,
    pub working_directory: Seq<char>,
}

impl View for ResolvedWorkerPath {
    type V = ResolvedValue;

    open spec fn view(&self) -> ResolvedValue {
        ResolvedValue {
            executable_path: self.executable_path@,
            script_path: self.script_path@,
            working_directory: self.working_directory@,
        }
    }
}

/// The entry script was found in no directory from the working directory upwards.
#[derive(Debug, PartialEq, Eq)]
pub struct LocatorError {
    /// The directory in which the search began.
    pub searched_from: String,
    /// Where, below one of the directories searched, the script was expected.
    pub expected_relative_path: String,
}

/// What a [`LocatorError`] holds.
pub struct LocatorFailure {
    pub searched_from: Seq<char>,
    pub expected_relative_path: Seq<char>,
}

impl View for LocatorError {
    type V = LocatorFailure;

    open spec fn view(&self) -> LocatorFailure {
        LocatorFailure {
            searched_from: self.searched_from@,
            expected_relative_path: self.expected_relative_path@,
        }
    }
}

/// The executable of the active environment, where its directory is declared.
pub open spec fn prefix_candidates(env: EnvironmentValue, layout: LayoutValue) -> Seq<Seq<char>> {
    match env.prefix {
        Some(prefix) => seq![prefix + seq![layout.separator] + layout.executable],
        None => Seq::empty(),
    }
}

/// The executable of the environment that is named active, where both its name
/// and the base directory are declared.
pub open spec fn named_candidates(env: EnvironmentValue, layout: LayoutValue) -> Seq<Seq<char>> {
    match (env.active_name, env.base) {
        (Some(name), Some(base)) => seq![
            base + seq![layout.separator] + ENVIRONMENTS_DIR@ + seq![layout.separator] + name
                + seq![layout.separator] + layout.executable,
        ],
        _ => Seq::empty(),
    }
}

/// The executable in each directory of the search path, in the path's order.
pub open spec fn search_candidates(env: EnvironmentValue, layout: LayoutValue) -> Seq<Seq<char>> {
    match env.search_path {
        Some(list) => Seq::new(
            split(list, layout.list_separator).len(),
            |i: int| child(split(list, layout.list_separator)[i], layout.executable, layout.separator),
        ),
        None => Seq::empty(),
    }
}

/// The places where the executable is looked for, in the order in which they are tried.
pub open spec fn candidates(env: EnvironmentValue, layout: LayoutValue) -> Seq<Seq<char>> {
    prefix_candidates(env, layout) + named_candidates(env, layout) + search_candidates(env, layout)
}

/// Where the entry script lies if `dir` is the project's root.
pub open spec fn script_at(dir: Seq<char>, layout: LayoutValue) -> Seq<char> {
    child(child(dir, WORKER_DIR@, layout.separator), ENTRY_SCRIPT@, layout.separator)
}

/// Where the entry script lies relative to the project's root.
pub open spec fn expected_relative(layout: LayoutValue) -> Seq<char> {
    child(WORKER_DIR@, ENTRY_SCRIPT@, layout.separator)
}

/// How far a search has come.
pub enum Search {
    /// The candidate at `next` is asked for.
    Executable { next: nat },
    /// The executable is chosen; the script is asked for in `directory`.
    Script { executable: Seq<char>, directory: Seq<char> },
    /// The search has ended: the worker is found.
    Resolved(ResolvedValue),
    /// The search has ended: there is no entry script.
    Failed(LocatorFailure),
}

/// What a [`Locator`] holds.
pub struct LocatorValue {
    pub layout: LayoutValue,
    pub candidates: Seq<Seq<char>>,
    pub start: Seq<char>,
    pub search: Search,
}

/// The search for the script, as it begins once the executable is chosen.
pub open spec fn script_search(executable: Seq<char>, start: Seq<char>) -> Search {
    Search::Script { executable, directory: start }
}

/// The search as it begins: at the first candidate, or at the script with the
/// fallback command where there is no candidate.
pub open spec fn initial(env: EnvironmentValue, layout: LayoutValue) -> LocatorValue {
    let all = candidates(env, layout);
    LocatorValue {
        layout,
        candidates: all,
        start: env.working_directory,
        search: if all.len() == 0 {
            script_search(layout.fallback, env.working_directory)
        } else {
            Search::Executable { next: 0 }
        },
    }
}

/// The path whose existence the search asks for next; `None` once it has ended.
pub open spec fn probe_of(l: LocatorValue) -> Option<Seq<char>> {
    match l.search {
        Search::Executable { next } => Some(l.candidates[next as int]),
        Search::Script { directory, .. } => Some(script_at(directory, l.layout)),
        _ => None,
    }
}

/// The search after the answer to its probe.
///
/// A candidate that exists is the executable; after the last candidate that
/// does not, the fallback command is. A script that exists ends the search in
/// its directory; one that does not sends the search to the parent directory,
/// and ends it where there is none. A search that has ended stays as it is.
pub open spec fn step(l: LocatorValue, present: bool) -> LocatorValue {
    let search = match l.search {
        Search::Executable { next } => if present {
            script_search(l.candidates[next as int], l.start)
        } else if next + 1 < l.candidates.len() {
            Search::Executable { next: next + 1 }
        } else {
            script_search(l.layout.fallback, l.start)
        },
        Search::Script { executable, directory } => if present {
            Search::Resolved(
                ResolvedValue {
                    executable_path: executable,
                    script_path: script_at(directory, l.layout),
                    working_directory: directory,
                },
            )
        } else {
            match parent(directory, l.layout.separator) {
                Some(above) => Search::Script { executable, directory: above },
                None => Search::Failed(
                    LocatorFailure {
                        searched_from: l.start,
                        expected_relative_path: expected_relative(l.layout),
                    },
                ),
            }
        },
        ended => ended,
    };
    LocatorValue { search, ..l }
}

/// A bound on the probes that a search may still make.
pub open spec fn probes_left(l: LocatorValue) -> nat {
    match l.search {
        Search::Executable { next } => {
            let waiting = if next < l.candidates.len() {
                l.candidates.len() - next
            } else {
                0
            };
            (waiting + l.start.len() + 2) as nat
        },
        Search::Script { directory, .. } => directory.len() + 1,
        _ => 0,
    }
}

/// Every answer brings the search closer to its end.
pub proof fn lemma_step_progresses(l: LocatorValue, present: bool)
    requires
        probe_of(l) is Some,
    ensures
        probes_left(step(l, present)) < probes_left(l),
{
    match l.search {
        Search::Script { directory, .. } => {
            lemma_parent_is_shorter(directory, l.layout.separator);
        },
        _ => {},
    }
}

/// The search as it ends when every probe is answered by `on_disk`.
pub open spec fn run(l: LocatorValue, on_disk: spec_fn(Seq<char>) -> bool) -> LocatorValue
    decreases probes_left(l),
{
    match probe_of(l) {
        Some(path) => {
            proof {
                lemma_step_progresses(l, on_disk(path));
            }
            run(step(l, on_disk(path)), on_disk)
        },
        None => l,
    }
}

/// The first candidate, from position `from` on, that exists.
pub open spec fn first_existing(
    all: Seq<Seq<char>>,
    from: int,
    on_disk: spec_fn(Seq<char>) -> bool,
) -> Option<Seq<char>>
    decreases all.len() - from,
{
    if from < 0 || from >= all.len() {
        None
    } else if on_disk(all[from]) {
        Some(all[from])
    } else {
        first_existing(all, from + 1, on_disk)
    }
}

/// The executable that runs the worker: the first candidate that exists, and
/// the fallback command where none does.
pub open spec fn chosen_executable(
    env: EnvironmentValue,
    layout: LayoutValue,
    on_disk: spec_fn(Seq<char>) -> bool,
) -> Seq<char> {
    match first_existing(candidates(env, layout), 0, on_disk) {
        Some(path) => path,
        None => layout.fallback,
    }
}

/// The nearest directory, from `dir` upwards, that holds the entry script.
pub open spec fn script_directory(
    dir: Seq<char>,
    layout: LayoutValue,
    on_disk: spec_fn(Seq<char>) -> bool,
) -> Option<Seq<char>>
    decreases dir.len(),
{
    if on_disk(script_at(dir, layout)) {
        Some(dir)
    } else {
        match parent(dir, layout.separator) {
            Some(above) => {
                proof {
                    lemma_parent_is_shorter(dir, layout.separator);
                }
                script_directory(above, layout, on_disk)
            },
            None => None,
        }
    }
}

/// Where the worker is, given what exists: the chosen executable, and the entry
/// script in the nearest directory that holds it, which is also where the
/// worker runs. Without such a directory the worker is not found.
pub open spec fn resolve(
    env: EnvironmentValue,
    layout: LayoutValue,
    on_disk: spec_fn(Seq<char>) -> bool,
) -> Result<ResolvedValue, LocatorFailure> {
    match script_directory(env.working_directory, layout, on_disk) {
        Some(dir) => Ok(
            ResolvedValue {
                executable_path: chosen_executable(env, layout, on_disk),
                script_path: script_at(dir, layout),
                working_directory: dir,
            },
        ),
        None => Err(
            LocatorFailure {
                searched_from: env.working_directory,
                expected_relative_path: expected_relative(layout),
            },
        ),
    }
}

/// The end of a search that resolves as `resolved` says.
pub open spec fn ended_as(resolved: Result<ResolvedValue, LocatorFailure>) -> Search {
    match resolved {
        Ok(found) => Search::Resolved(found),
        Err(failure) => Search::Failed(failure),
    }
}

/// From a candidate on, the search goes on to the script with the first
/// candidate that exists, or with the fallback command.
proof fn lemma_executable_phase(l: LocatorValue, on_disk: spec_fn(Seq<char>) -> bool)
    requires
        l.search matches Search::Executable { next } && next < l.candidates.len(),
    ensures
        run(l, on_disk) == run(
            LocatorValue {
                search: script_search(
                    match first_existing(l.candidates, l.search->next as int, on_disk) {
                        Some(path) => path,
                        None => l.layout.fallback,
                    },
                    l.start,
                ),
                ..l
            },
            on_disk,
        ),
    decreases l.candidates.len() - l.search->next,
{
    let next = l.search->next;
    let path = l.candidates[next as int];
    if !on_disk(path) {
        if next + 1 < l.candidates.len() {
            lemma_executable_phase(step(l, false), on_disk);
        }
    }
}

/// From a directory on, the search ends in the nearest directory that holds
/// the script, or fails where none does.
proof fn lemma_script_phase(l: LocatorValue, on_disk: spec_fn(Seq<char>) -> bool)
    requires
        l.search is Script,
    ensures
        run(l, on_disk) == (LocatorValue {
            search: match script_directory(l.search->directory, l.layout, on_disk) {
                Some(dir) => Search::Resolved(
                    ResolvedValue {
                        executable_path: l.search->executable,
                        script_path: script_at(dir, l.layout),
                        working_directory: dir,
                    },
                ),
                None => Search::Failed(
                    LocatorFailure {
                        searched_from: l.start,
                        expected_relative_path: expected_relative(l.layout),
                    },
                ),
            },
            ..l
        }),
    decreases l.search->directory.len(),
{
    let directory = l.search->directory;
    let path = script_at(directory, l.layout);
    let after = step(l, on_disk(path));
    assert(run(l, on_disk) == run(after, on_disk));
    if !on_disk(path) && parent(directory, l.layout.separator) is Some {
        lemma_parent_is_shorter(directory, l.layout.separator);
        lemma_script_phase(after, on_disk);
    }
}

/// A search that is answered truthfully ends as the resolution order says: the
/// first candidate that exists wins, the fallback command stands in where none
/// does, and the script is taken from the nearest directory that holds it.
pub proof fn lemma_search_resolves(
    env: EnvironmentValue,
    layout: LayoutValue,
    on_disk: spec_fn(Seq<char>) -> bool,
)
    ensures
        run(initial(env, layout), on_disk).search == ended_as(resolve(env, layout, on_disk)),
{
    let l = initial(env, layout);
    if l.candidates.len() == 0 {
        lemma_script_phase(l, on_disk);
    } else {
        lemma_executable_phase(l, on_disk);
        let chosen = LocatorValue {
            search: script_search(chosen_executable(env, layout, on_disk), l.start),
            ..l
        };
        lemma_script_phase(chosen, on_disk);
    }
}

/// Where nothing exists, the worker is not found: the search fails, and names
/// the directory it began in and where the script was expected.
pub proof fn lemma_nothing_found_fails(
    env: EnvironmentValue,
    layout: LayoutValue,
    on_disk: spec_fn(Seq<char>) -> bool,
)
    requires
        forall|path: Seq<char>| !(#[trigger] on_disk(path)),
    ensures
        resolve(env, layout, on_disk) == Err::<ResolvedValue, LocatorFailure>(
            LocatorFailure {
                searched_from: env.working_directory,
                expected_relative_path: expected_relative(layout),
            },
        ),
{
    lemma_no_script_anywhere(env.working_directory, layout, on_disk);
}

/// Where nothing exists, no directory holds the script.
proof fn lemma_no_script_anywhere(
    dir: Seq<char>,
    layout: LayoutValue,
    on_disk: spec_fn(Seq<char>) -> bool,
)
    requires
        forall|path: Seq<char>| !(#[trigger] on_disk(path)),
    ensures
        script_directory(dir, layout, on_disk) is None,
    decreases dir.len(),
{
    match parent(dir, layout.separator) {
        Some(above) => {
            lemma_parent_is_shorter(dir, layout.separator);
            lemma_no_script_anywhere(above, layout, on_disk);
        },
        None => {},
    }
}

/// Lists the places where the executable is looked for.
pub fn executable_candidates(env: &Environment, layout: &Layout) -> (r: Vec<String>)
    ensures
        views_of(r@) == candidates(env@, layout@),
{
    let sep = layout.separator;
    let exe = layout.executable.as_str();
    let mut out: Vec<String> = Vec::new();
    match &env.prefix {
        Some(prefix) => {
            let mut path = prefix.clone();
            path.push(sep);
            path.append(exe);
            proof {
                assert(path@ =~= prefix@ + seq![sep] + exe@);
            }
            out.push(path);
        },
        None => {},
    }
    match (&env.active_name, &env.base) {
        (Some(name), Some(base)) => {
            let mut path = base.clone();
            path.push(sep);
            path.append(ENVIRONMENTS_DIR);
            path.push(sep);
            path.append(name.as_str());
            path.push(sep);
            path.append(exe);
            proof {
                assert(path@ =~= base@ + seq![sep] + ENVIRONMENTS_DIR@ + seq![sep] + name@ + seq![
                    sep,
                ] + exe@);
            }
            out.push(path);
        },
        _ => {},
    }
    match &env.search_path {
        Some(list) => {
            let ghost fixed = views_of(out@);
            let ghost pieces = split(list@, layout.list_separator);
            let directories = split_at_each(list.as_str(), layout.list_separator);
            let mut i: usize = 0;
            while i < directories.len()
                invariant
                    i <= directories.len(),
                    sep == layout.separator,
                    exe@ == layout.executable@,
                    views_of(directories@) == pieces,
                    views_of(out@).len() == fixed.len() + i,
                    views_of(out@).take(fixed.len() as int) == fixed,
                    forall|k: int|
                        0 <= k < i ==> (#[trigger] views_of(out@)[fixed.len() + k]) == child(
                            pieces[k],
                            layout.executable@,
                            layout.separator,
                        ),
                decreases directories.len() - i,
            {
                let ghost before = views_of(out@);
                let path = join(directories[i].as_str(), exe, sep);
                out.push(path);
                proof {
                    assert(views_of(out@) =~= before.push(path@));
                }
                i = i + 1;
            }
            proof {
                let found = search_candidates(env@, layout@);
                assert forall|k: int| 0 <= k < views_of(out@).len() implies views_of(out@)[k]
                    == (fixed + found)[k] by {
                    if k >= fixed.len() {
                        let j = k - fixed.len();
                        assert(views_of(out@)[fixed.len() + j] == found[j]);
                    }
                }
            }
        },
        None => {},
    }
    out
}

/// How far a search has come, as the locator keeps it.
#[derive(Debug, PartialEq, Eq)]
enum Phase {
    Executable { next: usize },
    Script { executable: String, directory: String },
    Resolved(ResolvedWorkerPath),
    Failed(LocatorError),
}

/// A search for the worker, driven from outside one probe at a time.
#[derive(Debug, PartialEq, Eq)]
pub struct Locator {
    layout: Layout,
    candidates: Vec<String>,
    start: String,
    phase: Phase,
}

impl View for Locator {
    type V = LocatorValue;

    closed spec fn view(&self) -> LocatorValue {
        LocatorValue {
            layout: self.layout@,
            candidates: views_of(self.candidates@),
            start: self.start@,
            search: match self.phase {
                Phase::Executable { next } => Search::Executable { next: next as nat },
                Phase::Script { executable, directory } => Search::Script {
                    executable: executable@,
                    directory: directory@,
                },
                Phase::Resolved(found) => Search::Resolved(found@),
                Phase::Failed(error) => Search::Failed(error@),
            },
        }
    }
}

impl Locator {
    #[verifier::type_invariant]
    spec fn candidate_in_reach(self) -> bool {
        self.phase matches Phase::Executable { next } ==> next < self.candidates.len()
    }

    /// Begins a search in the given surroundings.
    pub fn new(env: Environment, layout: Layout) -> (r: Locator)
        ensures
            r@ == initial(env@, layout@),
    {
        let candidates = executable_candidates(&env, &layout);
        let start = env.working_directory;
        let phase = if candidates.len() == 0 {
            Phase::Script { executable: layout.fallback.clone(), directory: start.clone() }
        } else {
            Phase::Executable { next: 0 }
        };
        Locator { layout, candidates, start, phase }
    }

    /// The path whose existence is to be reported next; `None` once the search has ended.
    pub fn probe(&self) -> (r: Option<String>)
        ensures
            match r {
                Some(path) => probe_of(self@) == Some(path@),
                None => probe_of(self@) is None,
            },
    {
        proof {
            use_type_invariant(self);
        }
        match &self.phase {
            Phase::Executable { next } => Some(self.candidates[*next].clone()),
            Phase::Script { directory, .. } => {
                let sep = self.layout.separator;
                let worker = join(directory.as_str(), WORKER_DIR, sep);
                Some(join(worker.as_str(), ENTRY_SCRIPT, sep))
            },
            _ => None,
        }
    }

    /// Tells whether the search has ended.
    pub fn finished(&self) -> (r: bool)
        ensures
            r == (probe_of(self@) is None),
    {
        match &self.phase {
            Phase::Resolved(_) => true,
            Phase::Failed(_) => true,
            _ => false,
        }
    }

    /// Takes the answer to the probe: whether the path exists.
    pub fn answer(self, present: bool) -> (r: Locator)
        ensures
            r@ == step(self@, present),
    {
        proof {
            use_type_invariant(&self);
        }
        let Locator { layout, candidates, start, phase } = self;
        let phase = match phase {
            Phase::Executable { next } => if present {
                Phase::Script { executable: candidates[next].clone(), directory: start.clone() }
            } else if next + 1 < candidates.len() {
                Phase::Executable { next: next + 1 }
            } else {
                Phase::Script { executable: layout.fallback.clone(), directory: start.clone() }
            },
            Phase::Script { executable, directory } => if present {
                let sep = layout.separator;
                let worker = join(directory.as_str(), WORKER_DIR, sep);
                let script_path = join(worker.as_str(), ENTRY_SCRIPT, sep);
                Phase::Resolved(
                    ResolvedWorkerPath {
                        executable_path: executable,
                        script_path,
                        working_directory: directory,
                    },
                )
            } else {
                match parent_of(directory.as_str(), layout.separator) {
                    Some(above) => Phase::Script { executable, directory: above },
                    None => Phase::Failed(
                        LocatorError {
                            searched_from: start.clone(),
                            expected_relative_path: join(
                                WORKER_DIR,
                                ENTRY_SCRIPT,
                                layout.separator,
                            ),
                        },
                    ),
                }
            },
            ended => ended,
        };
        Locator { layout, candidates, start, phase }
    }

    /// How the search ended; `None` while it is still going on.
    pub fn finish(self) -> (r: Option<Result<ResolvedWorkerPath, LocatorError>>)
        ensures
            match r {
                Some(Ok(found)) => self@.search == Search::Resolved(found@),
                Some(Err(error)) => self@.search == Search::Failed(error@),
                None => probe_of(self@) is Some,
            },
    {
        match self.phase {
            Phase::Resolved(found) => Some(Ok(found)),
            Phase::Failed(error) => Some(Err(error)),
            _ => None,
        }
    }
}

/// What exists, where exactly the paths of `existing` do.
pub open spec fn listed(existing: Seq<Seq<char>>) -> spec_fn(Seq<char>) -> bool {
    |path: Seq<char>| existing.contains(path)
}

/// Tells whether `path` is one of `existing`.
fn is_listed(existing: &Vec<String>, path: &String) -> (r: bool)
    ensures
        r == listed(views_of(existing@))(path@),
{
    let mut i: usize = 0;
    while i < existing.len()
        invariant
            i <= existing.len(),
            forall|k: int| 0 <= k < i ==> views_of(existing@)[k] != path@,
        decreases existing.len() - i,
    {
        if existing[i] == *path {
            proof {
                assert(views_of(existing@)[i as int] == path@);
            }
            return true;
        }
        i = i + 1;
    }
    false
}

/// Finds the worker where exactly the paths of `existing` exist.
pub fn resolve_among(env: Environment, layout: Layout, existing: &Vec<String>) -> (r: Result<
    ResolvedWorkerPath,
    LocatorError,
>)
    ensures
        match r {
            Ok(found) => resolve(env@, layout@, listed(views_of(existing@))) == Ok::<
                ResolvedValue,
                LocatorFailure,
            >(found@),
            Err(error) => resolve(env@, layout@, listed(views_of(existing@))) == Err::<
                ResolvedValue,
                LocatorFailure,
            >(error@),
        },
{
    let ghost on_disk = listed(views_of(existing@));
    let ghost begun = initial(env@, layout@);
    proof {
        lemma_search_resolves(env@, layout@, on_disk);
    }
    let mut locator = Locator::new(env, layout);
    loop
        invariant
            on_disk == listed(views_of(existing@)),
            run(locator@, on_disk) == run(begun, on_disk),
        ensures
            probe_of(locator@) is None,
            locator@ == run(begun, on_disk),
        decreases probes_left(locator@),
    {
        match locator.probe() {
            Some(path) => {
                let present = is_listed(existing, &path);
                proof {
                    lemma_step_progresses(locator@, present);
                }
                locator = locator.answer(present);
            },
            None => {
                break ;
            },
        }
    }
    match locator.finish() {
        Some(end) => end,
        None => unreached(),
    }
}

} // verus!
