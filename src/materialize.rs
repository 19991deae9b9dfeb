use vstd::prelude::*;
use crate::interpret::Library;
use crate::message::{strs, contains_str};
use crate::paths::{parent_of, joined, file_name_of, is_absolute_path, parent, join, file_name, is_absolute};

verus! {

/// The platform families whose dynamic libraries are named differently.
#[derive(Debug, Clone, Copy, PartialEq, Eq, Structural)]
pub enum Platform {
    Windows,
    MacOs,
    Unix,
}

/// The file-name prefix of a dynamic library.
pub open spec fn dylib_prefix(p: Platform) -> Seq<char> {
    match p {
        Platform::Windows => ""@,
        _ => "lib"@,
    }
}

/// The file-name suffix of a dynamic library.
pub open spec fn dylib_suffix(p: Platform) -> Seq<char> {
    match p {
        Platform::Windows => ".dll"@,
        Platform::MacOs => ".dylib"@,
        Platform::Unix => ".so"@,
    }
}

/// The file name of the dynamic library with base name `name`.
pub fn dylib_file_name(platform: Platform, name: &str) -> (r: String)
    ensures
        r@ == dylib_prefix(platform) + name@ + dylib_suffix(platform),
{
    let (prefix, suffix) = match platform {
        Platform::Windows => ("", ".dll"),
        Platform::MacOs => ("lib", ".dylib"),
        Platform::Unix => ("lib", ".so"),
    };
    let mut r = prefix.to_owned();
    r.append(name);
    r.append(suffix);
    r
}

/// The longest chain of symbolic links that is followed from one source.
pub const MAX_LINK_DEPTH: usize = 40;

/// What the caller found at a source path, without following a final
/// symbolic link.
#[derive(Debug, PartialEq, Eq)]
pub enum SourceKind {
    /// A symbolic link, with the target path it holds.
    Symlink(String),
    Directory,
    /// A regular file, or anything else that can be copied as one.
    File,
}

/// The outcome of the filesystem work that the last action asked for.
#[derive(Debug, PartialEq, Eq)]
pub enum Event {
    /// Whether the path of a `Probe` exists.
    Exists(bool),
    /// The path of a `Remove` is gone, or was never there.
    Removed,
    /// The path of a `Remove` could not be removed.
    RemoveFailed(String),
    /// What the path of an `Inspect` is.
    Inspected(SourceKind),
    /// The path of an `Inspect` could not be read.
    InspectFailed(String),
    /// A `CopyFile` or a `Link` succeeded.
    Done,
    /// A `CopyFile` or a `Link` failed.
    Failed(String),
}

/// The kinds of fatal error while placing a library.
#[derive(Debug, Clone, Copy, PartialEq, Eq, Structural)]
pub enum ErrorKind {
    /// A candidate directory has no parent in which to look for `bin`.
    NoParentDirectory,
    /// A source path has no final component to name its copy.
    NoBaseName,
    /// An earlier file at the destination could not be removed.
    RemoveFailed,
    /// A source could not be inspected, or its link target not read.
    ReadLinkFailed,
    /// A relative link target cannot be resolved: the link has no parent.
    NoLinkParent,
    /// A source path is a directory.
    SourceIsDirectory,
    /// Copying a regular file failed.
    CopyFailed,
    /// Creating a symbolic link failed.
    LinkFailed,
    /// A chain of symbolic links returns to a source already in it, or is
    /// too long.
    SymlinkCycle,
    /// The event does not answer the last action.
    UnexpectedEvent,
}

/// A fatal error while placing a library: its kind, the path (or library
/// file name) involved, and the system's message where there is one.
#[derive(Debug, PartialEq, Eq)]
pub struct MaterializeError {
    pub kind: ErrorKind,
    pub subject: String,
    pub message: String,
}

/// The filesystem work that the caller is to do next, or the end.
#[derive(Debug, PartialEq, Eq)]
pub enum Action {
    /// Report whether the path exists (following links).
    Probe(String),
    /// Remove the file at the path, if there is one.
    Remove(String),
    /// Report what the path is, without following a final link.
    Inspect(String),
    /// Copy the bytes of the first file to the second path.
    CopyFile(String, String),
    /// Create at the second path a symbolic link holding the first.
    Link(String, String),
    /// The library is placed, or was found in no candidate directory.
    Finished,
    /// Placing the library failed.
    Failed(MaterializeError),
}

/// The view of an action.
pub enum ActionView {
    Probe(Seq<char>),
    Remove(Seq<char>),
    Inspect(Seq<char>),
    CopyFile(Seq<char>, Seq<char>),
    Link(Seq<char>, Seq<char>),
    Finished,
    Failed(ErrorKind, Seq<char>, Seq<char>),
}

impl View for Action {
    type V = ActionView;

    open spec fn view(&self) -> ActionView {
        match self {
            Action::Probe(p) => ActionView::Probe(p@),
            Action::Remove(p) => ActionView::Remove(p@),
            Action::Inspect(p) => ActionView::Inspect(p@),
            Action::CopyFile(a, b) => ActionView::CopyFile(a@, b@),
            Action::Link(a, b) => ActionView::Link(a@, b@),
            Action::Finished => ActionView::Finished,
            Action::Failed(e) => ActionView::Failed(e.kind, e.subject@, e.message@),
        }
    }
}

/// Where the placing of one library stands.
#[derive(Debug, Clone, Copy, PartialEq, Eq, Structural)]
pub enum Stage {
    /// Waiting to hear whether the library is in the current directory.
    ProbePrimary,
    /// Waiting to hear whether it is in the `bin` directory beside it.
    ProbeAlternate,
    /// Waiting for the destination of the current source to be cleared.
    Removing,
    /// Waiting to hear what the current source is.
    Inspecting,
    /// Waiting for the current source to be copied.
    Copying,
    /// Waiting for a link to be created.
    Linking,
    Finished,
    Halted,
}

/// The mathematical state of a materializer.
pub struct MachineView {
    /// The directory that receives the library.
    pub target_dir: Seq<char>,
    /// The library's file name.
    pub file_name: Seq<char>,
    /// The candidate directories.
    pub dirs: Seq<Seq<char>>,
    /// The candidate directory being tried.
    pub dir: int,
    pub stage: Stage,
    /// The path probed, or the source being copied.
    pub source: Seq<char>,
    /// Where the current source is copied, or the link being created.
    pub dest: Seq<char>,
    /// The links still to create once the copies they point at are made,
    /// innermost last: the target's base name and the link's path.
    pub pending: Seq<(Seq<char>, Seq<char>)>,
    /// The sources of the current chain of links.
    pub chain: Seq<Seq<char>>,
}

/// Places one library: finds its file in the candidate directories and
/// copies it, or recreates it if it is a symbolic link, into the target
/// directory. Each step names the filesystem work to do; the caller does it
/// and hands back what happened.
pub struct Materializer {
    target_dir: String,
    file_name: String,
    dirs: Vec<String>,
    dir: usize,
    stage: Stage,
    source: String,
    dest: String,
    pending: Vec<(String, String)>,
    chain: Vec<String>,
}

/// The views of a list of pending links.
pub open spec fn pairs(v: Vec<(String, String)>) -> Seq<(Seq<char>, Seq<char>)> {
    v@.map_values(|p: (String, String)| (p.0@, p.1@))
}

impl View for Materializer {
    type V = MachineView;

    closed spec fn view(&self) -> MachineView {
        MachineView {
            target_dir: self.target_dir@,
            file_name: self.file_name@,
            dirs: strs(self.dirs),
            dir: self.dir as int,
            stage: self.stage,
            source: self.source@,
            dest: self.dest@,
            pending: pairs(self.pending),
            chain: strs(self.chain),
        }
    }
}

/// A probing stage names a candidate directory, and no copy has begun.
pub open spec fn machine_wf(s: MachineView) -> bool {
    (s.stage == Stage::ProbePrimary || s.stage == Stage::ProbeAlternate) ==> {
        &&& 0 <= s.dir < s.dirs.len()
        &&& s.pending.len() == 0
        &&& s.chain.len() == 0
    }
}

/// Stop with an error.
pub open spec fn halt(s: MachineView, kind: ErrorKind, subject: Seq<char>, message: Seq<char>) -> (
    MachineView,
    ActionView,
) {
    (MachineView { stage: Stage::Halted, ..s }, ActionView::Failed(kind, subject, message))
}

/// Try candidate directory `d`, or finish when none is left.
pub open spec fn seek(s: MachineView, d: int) -> (MachineView, ActionView) {
    if d < s.dirs.len() {
        let p = joined(s.dirs[d], s.file_name);
        (MachineView { stage: Stage::ProbePrimary, dir: d, source: p, ..s }, ActionView::Probe(p))
    } else {
        (MachineView { stage: Stage::Finished, dir: d, ..s }, ActionView::Finished)
    }
}

/// Start copying `src`, whose base name is `base`: clear its destination.
pub open spec fn begin_copy(s: MachineView, src: Seq<char>, base: Seq<char>) -> (MachineView, ActionView) {
    if s.chain.contains(src) || s.chain.len() >= MAX_LINK_DEPTH {
        halt(s, ErrorKind::SymlinkCycle, src, Seq::empty())
    } else {
        let d = joined(s.target_dir, base);
        (
            MachineView { stage: Stage::Removing, source: src, dest: d, chain: s.chain.push(src), ..s },
            ActionView::Remove(d),
        )
    }
}

/// Start copying `src`, naming its copy after its base name.
pub open spec fn copy_source(s: MachineView, src: Seq<char>) -> (MachineView, ActionView) {
    match file_name_of(src) {
        None => halt(s, ErrorKind::NoBaseName, src, Seq::empty()),
        Some(b) => begin_copy(s, src, b),
    }
}

/// A copy is made: create the innermost pending link, or finish.
pub open spec fn finish_copy(s: MachineView) -> (MachineView, ActionView) {
    if s.pending.len() > 0 {
        let (t, l) = s.pending.last();
        (
            MachineView { stage: Stage::Linking, dest: l, pending: s.pending.drop_last(), ..s },
            ActionView::Link(t, l),
        )
    } else {
        (MachineView { stage: Stage::Finished, ..s }, ActionView::Finished)
    }
}

/// Where the link at `src` holding `t` points: `t` itself where it is
/// absolute, else `t` taken from the link's own directory.
pub open spec fn link_target(src: Seq<char>, t: Seq<char>) -> Option<Seq<char>> {
    if is_absolute_path(t) {
        Some(t)
    } else {
        match parent_of(src) {
            Some(p) => Some(joined(p, t)),
            None => None,
        }
    }
}

/// The `bin` directory beside `parent`'s child, holding `file_name`.
pub open spec fn alternate_path(parent: Seq<char>, file_name: Seq<char>) -> Seq<char> {
    joined(joined(parent, "bin"@), file_name)
}

/// The next state and action after `e` answers the last action in state `s`.
pub open spec fn step_spec(s: MachineView, e: Event) -> (MachineView, ActionView) {
    if !machine_wf(s) {
        halt(s, ErrorKind::UnexpectedEvent, Seq::empty(), Seq::empty())
    } else {
        step_wf(s, e)
    }
}

/// `step_spec` on a well-formed state.
pub open spec fn step_wf(s: MachineView, e: Event) -> (MachineView, ActionView) {
    match s.stage {
        Stage::ProbePrimary => match e {
            Event::Exists(true) => copy_source(s, s.source),
            Event::Exists(false) => match parent_of(s.dirs[s.dir]) {
                None => halt(s, ErrorKind::NoParentDirectory, s.file_name, Seq::empty()),
                Some(p) => {
                    let a = alternate_path(p, s.file_name);
                    (MachineView { stage: Stage::ProbeAlternate, source: a, ..s }, ActionView::Probe(a))
                },
            },
            _ => halt(s, ErrorKind::UnexpectedEvent, Seq::empty(), Seq::empty()),
        },
        Stage::ProbeAlternate => match e {
            Event::Exists(true) => copy_source(s, s.source),
            Event::Exists(false) => seek(s, s.dir + 1),
            _ => halt(s, ErrorKind::UnexpectedEvent, Seq::empty(), Seq::empty()),
        },
        Stage::Removing => match e {
            Event::Removed => (MachineView { stage: Stage::Inspecting, ..s }, ActionView::Inspect(s.source)),
            Event::RemoveFailed(m) => halt(s, ErrorKind::RemoveFailed, s.dest, m@),
            _ => halt(s, ErrorKind::UnexpectedEvent, Seq::empty(), Seq::empty()),
        },
        Stage::Inspecting => match e {
            Event::Inspected(SourceKind::Symlink(t)) => match link_target(s.source, t@) {
                None => halt(s, ErrorKind::NoLinkParent, s.source, Seq::empty()),
                Some(target) => match file_name_of(target) {
                    None => halt(s, ErrorKind::NoBaseName, target, Seq::empty()),
                    Some(b) => begin_copy(MachineView { pending: s.pending.push((b, s.dest)), ..s }, target, b),
                },
            },
            Event::Inspected(SourceKind::Directory) => halt(s, ErrorKind::SourceIsDirectory, s.source, Seq::empty()),
            Event::Inspected(SourceKind::File) => (
                MachineView { stage: Stage::Copying, ..s },
                ActionView::CopyFile(s.source, s.dest),
            ),
            Event::InspectFailed(m) => halt(s, ErrorKind::ReadLinkFailed, s.source, m@),
            _ => halt(s, ErrorKind::UnexpectedEvent, Seq::empty(), Seq::empty()),
        },
        Stage::Copying => match e {
            Event::Done => finish_copy(s),
            Event::Failed(m) => halt(s, ErrorKind::CopyFailed, s.dest, m@),
            _ => halt(s, ErrorKind::UnexpectedEvent, Seq::empty(), Seq::empty()),
        },
        Stage::Linking => match e {
            Event::Done => finish_copy(s),
            Event::Failed(m) => halt(s, ErrorKind::LinkFailed, s.dest, m@),
            _ => halt(s, ErrorKind::UnexpectedEvent, Seq::empty(), Seq::empty()),
        },
        _ => halt(s, ErrorKind::UnexpectedEvent, Seq::empty(), Seq::empty()),
    }
}

/// The state before the first step for `library` placed into `target_dir`.
pub open spec fn initial(target_dir: Seq<char>, library: Library, platform: Platform) -> MachineView {
    MachineView {
        target_dir,
        file_name: dylib_prefix(platform) + library.name@ + dylib_suffix(platform),
        dirs: strs(library.paths),
        dir: 0,
        stage: Stage::Finished,
        source: Seq::empty(),
        dest: Seq::empty(),
        pending: Seq::empty(),
        chain: Seq::empty(),
    }
}

impl Materializer {
    /// Starts placing `library` into `target_dir`, with the library file
    /// names of `platform`: the first action probes the first candidate
    /// directory, or finishes where there is none.
    pub fn new(target_dir: String, library: Library, platform: Platform) -> (r: (Materializer, Action))
        ensures
            (r.0@, r.1@) == seek(initial(target_dir@, library, platform), 0),
    {
        let file_name = dylib_file_name(platform, library.name.as_str());
        let mut m = Materializer {
            target_dir,
            file_name,
            dirs: library.paths,
            dir: 0,
            stage: Stage::Finished,
            source: String::new(),
            dest: String::new(),
            pending: Vec::new(),
            chain: Vec::new(),
        };
        assert(m@ == initial(target_dir@, library, platform)) by {
            assert(pairs(m.pending) =~= Seq::empty());
            assert(strs(m.chain) =~= Seq::empty());
        }
        let a = m.seek(0);
        (m, a)
    }

    fn halt(&mut self, kind: ErrorKind, subject: String, message: String) -> (r: Action)
        ensures
            (final(self)@, r@) == halt(old(self)@, kind, subject@, message@),
    {
        self.stage = Stage::Halted;
        Action::Failed(MaterializeError { kind, subject, message })
    }

    fn seek(&mut self, d: usize) -> (r: Action)
        requires
            d <= old(self)@.dirs.len(),
        ensures
            (final(self)@, r@) == seek(old(self)@, d as int),
    {
        if d < self.dirs.len() {
            let p = join(self.dirs[d].as_str(), self.file_name.as_str());
            self.dir = d;
            self.source = p.clone();
            self.stage = Stage::ProbePrimary;
            Action::Probe(p)
        } else {
            self.stage = Stage::Finished;
            self.dir = d;
            Action::Finished
        }
    }

    fn begin_copy(&mut self, src: String, base: String) -> (r: Action)
        ensures
            (final(self)@, r@) == begin_copy(old(self)@, src@, base@),
    {
        if contains_str(&self.chain, &src) || self.chain.len() >= MAX_LINK_DEPTH {
            return self.halt(ErrorKind::SymlinkCycle, src, String::new());
        }
        let d = join(self.target_dir.as_str(), base.as_str());
        let ghost before = self.chain;
        self.stage = Stage::Removing;
        self.chain.push(src.clone());
        assert(strs(self.chain) =~= strs(before).push(src@));
        self.source = src;
        self.dest = d.clone();
        Action::Remove(d)
    }

    fn copy_source(&mut self, src: String) -> (r: Action)
        ensures
            (final(self)@, r@) == copy_source(old(self)@, src@),
    {
        match file_name(src.as_str()) {
            None => self.halt(ErrorKind::NoBaseName, src, String::new()),
            Some(b) => self.begin_copy(src, b),
        }
    }

    fn finish_copy(&mut self) -> (r: Action)
        ensures
            (final(self)@, r@) == finish_copy(old(self)@),
    {
        let ghost before = self.pending;
        match self.pending.pop() {
            Some((t, l)) => {
                assert(pairs(self.pending) =~= pairs(before).drop_last());
                self.stage = Stage::Linking;
                self.dest = l.clone();
                Action::Link(t, l)
            },
            None => {
                self.stage = Stage::Finished;
                Action::Finished
            },
        }
    }

    /// Takes what became of the last action and returns the next one.
    pub fn step(&mut self, event: Event) -> (r: Action)
        ensures
            (final(self)@, r@) == step_spec(old(self)@, event),
    {
        if (self.stage == Stage::ProbePrimary || self.stage == Stage::ProbeAlternate) && (self.dir
            >= self.dirs.len() || self.pending.len() > 0 || self.chain.len() > 0) {
            return self.halt(ErrorKind::UnexpectedEvent, String::new(), String::new());
        }
        match self.stage {
            Stage::ProbePrimary => match event {
                Event::Exists(true) => {
                    let src = self.source.clone();
                    self.copy_source(src)
                },
                Event::Exists(false) => match parent(self.dirs[self.dir].as_str()) {
                    None => {
                        let name = self.file_name.clone();
                        self.halt(ErrorKind::NoParentDirectory, name, String::new())
                    },
                    Some(p) => {
                        let bin = join(p.as_str(), "bin");
                        let a = join(bin.as_str(), self.file_name.as_str());
                        self.source = a.clone();
                        self.stage = Stage::ProbeAlternate;
                        Action::Probe(a)
                    },
                },
                _ => self.halt(ErrorKind::UnexpectedEvent, String::new(), String::new()),
            },
            Stage::ProbeAlternate => match event {
                Event::Exists(true) => {
                    let src = self.source.clone();
                    self.copy_source(src)
                },
                Event::Exists(false) => self.seek(self.dir + 1),
                _ => self.halt(ErrorKind::UnexpectedEvent, String::new(), String::new()),
            },
            Stage::Removing => match event {
                Event::Removed => {
                    self.stage = Stage::Inspecting;
                    Action::Inspect(self.source.clone())
                },
                Event::RemoveFailed(m) => {
                    let d = self.dest.clone();
                    self.halt(ErrorKind::RemoveFailed, d, m)
                },
                _ => self.halt(ErrorKind::UnexpectedEvent, String::new(), String::new()),
            },
            Stage::Inspecting => match event {
                Event::Inspected(SourceKind::Symlink(t)) => {
                    let target = if is_absolute(t.as_str()) {
                        Some(t)
                    } else {
                        match parent(self.source.as_str()) {
                            Some(p) => Some(join(p.as_str(), t.as_str())),
                            None => None,
                        }
                    };
                    match target {
                        None => {
                            let s = self.source.clone();
                            self.halt(ErrorKind::NoLinkParent, s, String::new())
                        },
                        Some(target) => match file_name(target.as_str()) {
                            None => self.halt(ErrorKind::NoBaseName, target, String::new()),
                            Some(b) => {
                                let ghost before = self.pending;
                                let d = self.dest.clone();
                                self.pending.push((b.clone(), d));
                                assert(pairs(self.pending) =~= pairs(before).push((b@, self.dest@)));
                                self.begin_copy(target, b)
                            },
                        },
                    }
                },
                Event::Inspected(SourceKind::Directory) => {
                    let s = self.source.clone();
                    self.halt(ErrorKind::SourceIsDirectory, s, String::new())
                },
                Event::Inspected(SourceKind::File) => {
                    self.stage = Stage::Copying;
                    Action::CopyFile(self.source.clone(), self.dest.clone())
                },
                Event::InspectFailed(m) => {
                    let s = self.source.clone();
                    self.halt(ErrorKind::ReadLinkFailed, s, m)
                },
                _ => self.halt(ErrorKind::UnexpectedEvent, String::new(), String::new()),
            },
            Stage::Copying => match event {
                Event::Done => self.finish_copy(),
                Event::Failed(m) => {
                    let d = self.dest.clone();
                    self.halt(ErrorKind::CopyFailed, d, m)
                },
                _ => self.halt(ErrorKind::UnexpectedEvent, String::new(), String::new()),
            },
            Stage::Linking => match event {
                Event::Done => self.finish_copy(),
                Event::Failed(m) => {
                    let d = self.dest.clone();
                    self.halt(ErrorKind::LinkFailed, d, m)
                },
                _ => self.halt(ErrorKind::UnexpectedEvent, String::new(), String::new()),
            },
            _ => self.halt(ErrorKind::UnexpectedEvent, String::new(), String::new()),
        }
    }
}

/// The final state and the actions when the events `events` answer, in
/// turn, the actions of the machine from state `s`.
pub open spec fn run(s: MachineView, events: Seq<Event>) -> (MachineView, Seq<ActionView>)
    decreases events.len(),
{
    if events.len() == 0 {
        (s, Seq::empty())
    } else {
        let (t, a) = step_spec(s, events[0]);
        let (u, rest) = run(t, events.drop_first());
        (u, seq![a] + rest)
    }
}

/// `k` answers that a probed path does not exist.
pub open spec fn misses(k: nat) -> Seq<Event> {
    Seq::new(k, |i: int| Event::Exists(false))
}

/// A machine starts well formed, and each step keeps it so.
pub proof fn law_well_formed(target_dir: Seq<char>, library: Library, platform: Platform, s: MachineView, e: Event)
    ensures
        machine_wf(seek(initial(target_dir, library, platform), 0).0),
        machine_wf(s) ==> machine_wf(step_spec(s, e).0),
{
}

/// A regular file is copied only to the destination whose removal the
/// step before asked for and saw done, so an earlier file there is
/// replaced; and a copy begins by asking for that removal.
pub proof fn law_copy_replaces(s: MachineView, e1: Event, e2: Event)
    ensures
        step_spec(s, e1).0.stage == Stage::Removing && s.stage != Stage::Removing ==> step_spec(s, e1).1
            == ActionView::Remove(step_spec(s, e1).0.dest),
        step_spec(step_spec(s, e1).0, e2).1 matches ActionView::CopyFile(src, d) ==> {
            &&& s.stage == Stage::Removing
            &&& e1 is Removed
            &&& d == s.dest
            &&& src == s.source
        },
{
}

proof fn lemma_misses_from(s: MachineView)
    requires
        machine_wf(s),
        s.stage == Stage::ProbePrimary,
        forall|i: int| 0 <= i < s.dirs.len() ==> (#[trigger] parent_of(s.dirs[i])) is Some,
    ensures
        run(s, misses((2 * (s.dirs.len() - s.dir)) as nat)).0.stage == Stage::Finished,
        forall|i: int|
            0 <= i < run(s, misses((2 * (s.dirs.len() - s.dir)) as nat)).1.len() ==> #[trigger] run(
                s,
                misses((2 * (s.dirs.len() - s.dir)) as nat),
            ).1[i] is Probe || run(s, misses((2 * (s.dirs.len() - s.dir)) as nat)).1[i] is Finished,
    decreases s.dirs.len() - s.dir,
{
    let k = (2 * (s.dirs.len() - s.dir)) as nat;
    let ev = misses(k);
    assert(ev[0] == Event::Exists(false));
    let (s1, a1) = step_spec(s, ev[0]);
    assert(parent_of(s.dirs[s.dir]) is Some);
    assert(a1 is Probe);
    let ev1 = ev.drop_first();
    assert(ev1 =~= misses((k - 1) as nat));
    assert(ev1[0] == Event::Exists(false));
    let (s2, a2) = step_spec(s1, ev1[0]);
    let ev2 = ev1.drop_first();
    assert(ev2 =~= misses((k - 2) as nat));
    if s.dir + 1 < s.dirs.len() {
        assert(s2.dirs == s.dirs);
        lemma_misses_from(s2);
        assert(a2 is Probe);
    } else {
        assert(ev2.len() == 0);
        assert(a2 is Finished);
        assert(run(s2, ev2).1.len() == 0);
    }
    let r2 = run(s2, ev2);
    assert(run(s1, ev1).1 == seq![a2] + r2.1);
    assert(run(s, ev).1 == seq![a1] + (seq![a2] + r2.1));
    assert forall|i: int| 0 <= i < run(s, ev).1.len() implies #[trigger] run(s, ev).1[i] is Probe || run(
        s,
        ev,
    ).1[i] is Finished by {
        if i >= 2 {
            assert(run(s, ev).1[i] == r2.1[i - 2]);
        }
    }
}

/// A library found in none of its candidate directories, under either
/// convention, is passed over without error: the machine only probes and
/// then finishes, so nothing is removed, copied or linked. (Each candidate
/// must have a parent directory for the second convention to be probed.)
pub proof fn law_not_found_is_skipped(target_dir: Seq<char>, library: Library, platform: Platform)
    requires
        forall|i: int| 0 <= i < library.paths@.len() ==> (#[trigger] parent_of(library.paths@[i]@)) is Some,
    ensures
        ({
            let (s0, a0) = seek(initial(target_dir, library, platform), 0);
            let (s, acts) = run(s0, misses((2 * library.paths@.len()) as nat));
            &&& s.stage == Stage::Finished
            &&& a0 is Probe || a0 is Finished
            &&& forall|i: int| 0 <= i < acts.len() ==> #[trigger] acts[i] is Probe || acts[i] is Finished
        }),
{
    let (s0, a0) = seek(initial(target_dir, library, platform), 0);
    if library.paths@.len() > 0 {
        assert forall|i: int| 0 <= i < s0.dirs.len() implies (#[trigger] parent_of(s0.dirs[i])) is Some by {
            assert(s0.dirs[i] == library.paths@[i]@);
            assert(parent_of(library.paths@[i]@) is Some);
        }
        lemma_misses_from(s0);
    } else {
        assert(misses(0).len() == 0);
    }
}

/// Where the library is in a candidate directory itself, it is copied from
/// there: the next action clears its destination in the target directory,
/// and the `bin` directory beside the candidate is not probed.
pub proof fn law_primary_hit_is_copied(s: MachineView)
    requires
        machine_wf(s),
        s.stage == Stage::ProbePrimary,
        s.source == joined(s.dirs[s.dir], s.file_name),
        file_name_of(s.source) is Some,
    ensures
        ({
            let (t, a) = step_spec(s, Event::Exists(true));
            let d = joined(s.target_dir, file_name_of(s.source)->Some_0);
            &&& a == ActionView::Remove(d)
            &&& t.stage == Stage::Removing
            &&& t.source == joined(s.dirs[s.dir], s.file_name)
            &&& t.dest == d
        }),
{
}

/// Where the library is missing from a candidate directory but lies in the
/// `bin` directory beside it, that directory is probed next and the library
/// is copied from there.
pub proof fn law_alternate_hit_is_copied(s: MachineView)
    requires
        machine_wf(s),
        s.stage == Stage::ProbePrimary,
        parent_of(s.dirs[s.dir]) is Some,
        file_name_of(alternate_path(parent_of(s.dirs[s.dir])->Some_0, s.file_name)) is Some,
    ensures
        ({
            let alt = alternate_path(parent_of(s.dirs[s.dir])->Some_0, s.file_name);
            let (t1, a1) = step_spec(s, Event::Exists(false));
            let (t2, a2) = step_spec(t1, Event::Exists(true));
            &&& a1 == ActionView::Probe(alt)
            &&& a2 == ActionView::Remove(joined(s.target_dir, file_name_of(alt)->Some_0))
            &&& t2.source == alt
        }),
{
}

/// A source that is a symbolic link is not copied as it stands: the file it
/// points at (a relative target taken from the link's own directory) is
/// copied in first, and a link to that file's base name alone is queued for
/// the link's own destination; once the copy is made, that link is created.
pub proof fn law_symlink_is_recreated(s: MachineView, t: String)
    requires
        machine_wf(s),
        s.stage == Stage::Inspecting,
        !is_absolute_path(t@),
        parent_of(s.source) is Some,
        file_name_of(joined(parent_of(s.source)->Some_0, t@)) is Some,
        !s.chain.contains(joined(parent_of(s.source)->Some_0, t@)),
        s.chain.len() < MAX_LINK_DEPTH,
    ensures
        ({
            let target = joined(parent_of(s.source)->Some_0, t@);
            let base = file_name_of(target)->Some_0;
            let (t1, a1) = step_spec(s, Event::Inspected(SourceKind::Symlink(t)));
            &&& a1 == ActionView::Remove(joined(s.target_dir, base))
            &&& t1.source == target
            &&& t1.pending == s.pending.push((base, s.dest))
        }),
        forall|u: MachineView|
            machine_wf(u) && u.stage == Stage::Copying && u.pending.len() > 0 ==> #[trigger] step_spec(
                u,
                Event::Done,
            ).1 == ActionView::Link(u.pending.last().0, u.pending.last().1),
{
}

} // verus!
