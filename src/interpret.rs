use vstd::prelude::*;
use crate::message::{BuildMessage, strs, contains_str, is_artifact_of, declares_libraries};
use crate::paths::{parent_of, joined, ends_with, parent, join, has_suffix};

verus! {

/// A native library to place beside the output: its base name and the
/// directories in which to look for it, without repeats, in the order in
/// which they were first named.
#[derive(Debug, PartialEq, Eq)]
pub struct Library {
    pub name: String,
    pub paths: Vec<String>,
}

impl View for Library {
    type V = (Seq<char>, Seq<Seq<char>>);

    open spec fn view(&self) -> (Seq<char>, Seq<Seq<char>>) {
        (self.name@, strs(self.paths))
    }
}

/// The views of a vector of libraries.
pub open spec fn library_views(v: Vec<Library>) -> Seq<(Seq<char>, Seq<Seq<char>>)> {
    v@.map_values(|l: Library| l@)
}

/// What an event stream yields: the directory that receives the libraries,
/// and the libraries to place there, in the order of the stream.
#[derive(Debug, PartialEq, Eq)]
pub struct Interpretation {
    pub target_dir: String,
    pub libraries: Vec<Library>,
}

/// Why an event stream cannot be interpreted.
#[derive(Debug, PartialEq, Eq)]
pub enum InterpretError {
    /// The record on this line (counted from 1) could not be decoded.
    Malformed { line: usize, message: String },
    /// A build script of this package linked libraries but named no
    /// directories for them.
    MissingPaths { package: String },
    /// A build script of this package linked libraries with an empty list
    /// of directories.
    NoPaths { package: String },
    /// No artifact event names the designated package.
    NoArtifact { package: String },
    /// The artifact event has neither an executable nor a list of files.
    MissingFilenames { package: String },
    /// The artifact event has no executable and no library archive.
    MissingRlib { package: String },
    /// The artifact's path has no parent directory.
    NoParent { package: String },
}

/// `s` without repeats, each element kept where it first occurs.
pub open spec fn unique(s: Seq<Seq<char>>) -> Seq<Seq<char>>
    decreases s.len(),
{
    if s.len() == 0 {
        s
    } else {
        let u = unique(s.drop_last());
        if u.contains(s.last()) {
            u
        } else {
            u.push(s.last())
        }
    }
}

/// One library request for each name, all sharing the directories `paths`.
pub open spec fn requests(names: Seq<Seq<char>>, paths: Seq<Seq<char>>) -> Seq<(Seq<char>, Seq<Seq<char>>)> {
    names.map_values(|n: Seq<char>| (n, unique(paths)))
}

/// The state after reading the first `n` records of `msgs`: the index of the
/// designated artifact event, if one was seen, and the library requests so
/// far; or the first fatal error.
pub open spec fn scan(msgs: Seq<Result<BuildMessage, String>>, pkg: Seq<char>, n: nat) -> Result<
    (Option<usize>, Seq<(Seq<char>, Seq<Seq<char>>)>),
    InterpretError,
>
    decreases n,
{
    if n == 0 {
        Ok((None, Seq::empty()))
    } else {
        match scan(msgs, pkg, (n - 1) as nat) {
            Err(e) => Err(e),
            Ok((art, libs)) => match msgs[n - 1] {
                Err(text) => Err(InterpretError::Malformed { line: n as usize, message: text }),
                Ok(m) => if is_artifact_of(m, pkg) {
                    Ok((if art is None { Some((n - 1) as usize) } else { art }, libs))
                } else if !declares_libraries(m) {
                    Ok((art, libs))
                } else {
                    match m.linked_paths {
                        None => Err(InterpretError::MissingPaths { package: m.package_id->Some_0 }),
                        Some(ps) => if ps@.len() == 0 {
                            Err(InterpretError::NoPaths { package: m.package_id->Some_0 })
                        } else {
                            Ok((art, libs + requests(strs(m.linked_libs->Some_0), strs(ps))))
                        },
                    }
                },
            },
        }
    }
}

/// The suffix of a library archive among an artifact's files.
pub open spec fn rlib_suffix() -> Seq<char> {
    ".rlib"@
}

/// The index of the first of the first `n` files that is a library archive.
pub open spec fn first_rlib(files: Seq<Seq<char>>, n: nat) -> Option<usize>
    decreases n,
{
    if n == 0 {
        None
    } else {
        match first_rlib(files, (n - 1) as nat) {
            Some(i) => Some(i),
            None => if ends_with(files[n - 1], rlib_suffix()) {
                Some((n - 1) as usize)
            } else {
                None
            },
        }
    }
}

/// The directory that receives the libraries, for an artifact at `path`: the
/// `deps` directory beside it.
pub open spec fn output_dir(path: Seq<char>, pkg: String) -> Result<Seq<char>, InterpretError> {
    match parent_of(path) {
        Some(d) => Ok(joined(d, "deps"@)),
        None => Err(InterpretError::NoParent { package: pkg }),
    }
}

/// The receiving directory for the designated artifact event `m`: beside its
/// executable, else beside its first library archive.
pub open spec fn target_of(m: BuildMessage, pkg: String) -> Result<Seq<char>, InterpretError> {
    match m.executable {
        Some(e) => output_dir(e@, pkg),
        None => match m.filenames {
            None => Err(InterpretError::MissingFilenames { package: pkg }),
            Some(fs) => match first_rlib(strs(fs), fs@.len()) {
                None => Err(InterpretError::MissingRlib { package: pkg }),
                Some(i) => output_dir(fs@[i as int]@, pkg),
            },
        },
    }
}

/// What the whole stream `msgs` yields for the designated package `pkg`.
pub open spec fn interpretation_of(msgs: Seq<Result<BuildMessage, String>>, pkg: String) -> Result<
    (Seq<char>, Seq<(Seq<char>, Seq<Seq<char>>)>),
    InterpretError,
> {
    match scan(msgs, pkg@, msgs.len()) {
        Err(e) => Err(e),
        Ok((None, _)) => Err(InterpretError::NoArtifact { package: pkg }),
        Ok((Some(i), libs)) => match target_of(msgs[i as int]->Ok_0, pkg) {
            Err(e) => Err(e),
            Ok(t) => Ok((t, libs)),
        },
    }
}

/// The views of an interpretation's result.
pub open spec fn result_view(r: Result<Interpretation, InterpretError>) -> Result<
    (Seq<char>, Seq<(Seq<char>, Seq<Seq<char>>)>),
    InterpretError,
> {
    match r {
        Ok(x) => Ok((x.target_dir@, library_views(x.libraries))),
        Err(e) => Err(e),
    }
}

/// The strings of `v` without repeats, in order of first occurrence.
pub fn unique_paths(v: &Vec<String>) -> (r: Vec<String>)
    ensures
        strs(r) == unique(strs(*v)),
{
    let mut out: Vec<String> = Vec::new();
    let mut i: usize = 0;
    while i < v.len()
        invariant
            i <= v@.len(),
            strs(out) == unique(strs(*v).take(i as int)),
        decreases v@.len() - i,
    {
        let found = contains_str(&out, &v[i]);
        proof {
            let s = strs(*v).take(i as int + 1);
            assert(s.drop_last() == strs(*v).take(i as int));
            assert(s.last() == v@[i as int]@);
        }
        if !found {
            out.push(v[i].clone());
            assert(strs(out) == unique(strs(*v).take(i as int)).push(v@[i as int]@));
        }
        i = i + 1;
    }
    assert(strs(*v).take(v@.len() as int) == strs(*v));
    out
}

/// The receiving directory for an artifact at `path`.
fn output_dir_exec(path: &String, package_id: &String) -> (r: Result<String, InterpretError>)
    ensures
        match output_dir(path@, *package_id) {
            Ok(d) => r matches Ok(s) && s@ == d,
            Err(e) => r == Err::<String, InterpretError>(e),
        },
{
    match parent(path.as_str()) {
        Some(d) => Ok(join(d.as_str(), "deps")),
        None => Err(InterpretError::NoParent { package: package_id.clone() }),
    }
}

/// The receiving directory for the designated artifact event `m`.
pub fn target_dir(m: &BuildMessage, package_id: &String) -> (r: Result<String, InterpretError>)
    ensures
        match target_of(*m, *package_id) {
            Ok(d) => r matches Ok(s) && s@ == d,
            Err(e) => r == Err::<String, InterpretError>(e),
        },
{
    match &m.executable {
        Some(e) => output_dir_exec(e, package_id),
        None => match &m.filenames {
            None => Err(InterpretError::MissingFilenames { package: package_id.clone() }),
            Some(fs) => {
                let mut found: Option<usize> = None;
                let mut i: usize = 0;
                while i < fs.len()
                    invariant
                        i <= fs@.len(),
                        found == first_rlib(strs(*fs), i as nat),
                        found matches Some(k) ==> k < i,
                    decreases fs@.len() - i,
                {
                    if found.is_none() && has_suffix(fs[i].as_str(), ".rlib") {
                        found = Some(i);
                    }
                    i = i + 1;
                }
                match found {
                    None => Err(InterpretError::MissingRlib { package: package_id.clone() }),
                    Some(k) => output_dir_exec(&fs[k], package_id),
                }
            },
        },
    }
}

/// Once the records read so far hold a fatal error, no later record changes it.
proof fn lemma_scan_error_stays(msgs: Seq<Result<BuildMessage, String>>, pkg: Seq<char>, n: nat, m: nat)
    requires
        n <= m,
        scan(msgs, pkg, n) is Err,
    ensures
        scan(msgs, pkg, m) == scan(msgs, pkg, n),
    decreases m - n,
{
    if n < m {
        lemma_scan_error_stays(msgs, pkg, n, (m - 1) as nat);
    }
}

/// Reads the decoded event stream `messages` for the package `package_id`.
///
/// Each record is either a decoded event or the text of its decoding
/// failure. The result is the `deps` directory beside the first artifact of
/// the package (its executable, else its first library archive), and one
/// library request for each library that a build script linked, with that
/// script's directories; or the first fatal error of the stream.
pub fn interpret(messages: &Vec<Result<BuildMessage, String>>, package_id: &String) -> (r: Result<
    Interpretation,
    InterpretError,
>)
    ensures
        result_view(r) == interpretation_of(messages@, *package_id),
{
    let artifact_reason = "compiler-artifact".to_owned();
    let build_reason = "build-script-executed".to_owned();
    let mut artifact: Option<usize> = None;
    let mut libraries: Vec<Library> = Vec::new();
    let mut i: usize = 0;
    assert(library_views(libraries) =~= Seq::empty());
    while i < messages.len()
        invariant
            i <= messages@.len(),
            artifact_reason@ == crate::message::artifact_reason(),
            build_reason@ == crate::message::build_script_reason(),
            scan(messages@, package_id@, i as nat) == Ok::<_, InterpretError>(
                (artifact, library_views(libraries)),
            ),
            artifact matches Some(a) ==> a < i && messages@[a as int] is Ok,
        decreases messages@.len() - i,
    {
        match &messages[i] {
            Err(text) => {
                let r = Err(InterpretError::Malformed { line: i + 1, message: text.clone() });
                proof {
                    lemma_scan_error_stays(messages@, package_id@, (i + 1) as nat, messages@.len());
                }
                return r;
            },
            Ok(m) => {
                let is_artifact = m.reason == artifact_reason && match &m.package_id {
                    Some(p) => *p == *package_id,
                    None => false,
                };
                if is_artifact {
                    if artifact.is_none() {
                        artifact = Some(i);
                    }
                } else if m.reason == build_reason {
                    match (&m.package_id, &m.linked_libs) {
                        (Some(pid), Some(libs)) => {
                            if libs.len() > 0 {
                                match &m.linked_paths {
                                    None => {
                                        let r = Err(InterpretError::MissingPaths { package: pid.clone() });
                                        proof {
                                            lemma_scan_error_stays(messages@, package_id@, (i + 1) as nat, messages@.len());
                                        }
                                        return r;
                                    },
                                    Some(ps) => {
                                        if ps.len() == 0 {
                                            let r = Err(InterpretError::NoPaths { package: pid.clone() });
                                            proof {
                                                lemma_scan_error_stays(messages@, package_id@, (i + 1) as nat, messages@.len());
                                            }
                                            return r;
                                        }
                                        let ghost before = library_views(libraries);
                                        let ghost added = requests(strs(*libs), strs(*ps));
                                        let mut k: usize = 0;
                                        while k < libs.len()
                                            invariant
                                                k <= libs@.len(),
                                                added.len() == libs@.len(),
                                                added == requests(strs(*libs), strs(*ps)),
                                                library_views(libraries) == before + added.take(k as int),
                                            decreases libs@.len() - k,
                                        {
                                            let lib = Library { name: libs[k].clone(), paths: unique_paths(ps) };
                                            assert(lib@ == added[k as int]);
                                            let ghost prev = libraries;
                                            libraries.push(lib);
                                            assert(library_views(libraries) =~= library_views(prev).push(lib@));
                                            assert(added.take(k as int + 1) =~= added.take(k as int).push(added[k as int]));
                                            assert(library_views(libraries) =~= before + added.take(k as int + 1));
                                            k = k + 1;
                                        }
                                        assert(added.take(libs@.len() as int) == added);
                                    },
                                }
                            }
                        },
                        _ => {},
                    }
                }
            },
        }
        i = i + 1;
    }
    assert(messages@.len() == i);
    match artifact {
        None => Err(InterpretError::NoArtifact { package: package_id.clone() }),
        Some(a) => match &messages[a] {
            Ok(m) => match target_dir(m, package_id) {
                Ok(t) => Ok(Interpretation { target_dir: t, libraries }),
                Err(e) => Err(e),
            },
            Err(_) => {
                proof {
                    assert(false);
                }
                Err(InterpretError::NoArtifact { package: package_id.clone() })
            },
        },
    }
}

/// The two event kinds that the interpretation reads are told apart.
proof fn lemma_reasons_differ()
    ensures
        crate::message::artifact_reason() != crate::message::build_script_reason(),
{
    reveal_strlit("compiler-artifact");
    reveal_strlit("build-script-executed");
    assert(crate::message::artifact_reason().len() != crate::message::build_script_reason().len());
}

/// The number of libraries linked by the build-script events among the first
/// `n` records that declare libraries.
pub open spec fn linked_count(msgs: Seq<Result<BuildMessage, String>>, n: nat) -> nat
    decreases n,
{
    if n == 0 {
        0
    } else {
        linked_count(msgs, (n - 1) as nat) + match msgs[n - 1] {
            Ok(m) => if declares_libraries(m) {
                m.linked_libs->Some_0@.len()
            } else {
                0
            },
            Err(_) => 0,
        }
    }
}

proof fn lemma_scan_count(msgs: Seq<Result<BuildMessage, String>>, pkg: Seq<char>, n: nat)
    requires
        n <= msgs.len(),
        scan(msgs, pkg, n) is Ok,
    ensures
        scan(msgs, pkg, n)->Ok_0.1.len() == linked_count(msgs, n),
    decreases n,
{
    if n > 0 {
        lemma_reasons_differ();
        if scan(msgs, pkg, (n - 1) as nat) is Err {
            lemma_scan_error_stays(msgs, pkg, (n - 1) as nat, n);
        } else {
            lemma_scan_count(msgs, pkg, (n - 1) as nat);
        }
    }
}

/// Whenever a stream is interpreted without error, there is exactly one
/// library request for each library name that a build-script event of the
/// stream declared.
pub proof fn law_request_count(msgs: Seq<Result<BuildMessage, String>>, pkg: String)
    requires
        interpretation_of(msgs, pkg) is Ok,
    ensures
        interpretation_of(msgs, pkg)->Ok_0.1.len() == linked_count(msgs, msgs.len()),
{
    lemma_scan_count(msgs, pkg@, msgs.len());
}

/// A build-script event that links libraries but names no directories for
/// them makes the whole interpretation fail.
pub proof fn law_missing_paths_fail(msgs: Seq<Result<BuildMessage, String>>, pkg: String, k: int)
    requires
        0 <= k < msgs.len(),
        msgs[k] matches Ok(m) && declares_libraries(m) && m.linked_paths is None,
    ensures
        interpretation_of(msgs, pkg) is Err,
{
    lemma_reasons_differ();
    let n = (k + 1) as nat;
    assert(scan(msgs, pkg@, n) is Err);
    lemma_scan_error_stays(msgs, pkg@, n, msgs.len());
}

proof fn lemma_unique_nonempty(s: Seq<Seq<char>>)
    requires
        s.len() > 0,
    ensures
        unique(s).len() > 0,
    decreases s.len(),
{
    let u = unique(s.drop_last());
    if u.contains(s.last()) {
        assert(u.len() > 0);
    }
}

proof fn lemma_scan_dirs(msgs: Seq<Result<BuildMessage, String>>, pkg: Seq<char>, n: nat)
    requires
        n <= msgs.len(),
        scan(msgs, pkg, n) is Ok,
    ensures
        forall|i: int|
            0 <= i < scan(msgs, pkg, n)->Ok_0.1.len() ==> (#[trigger] scan(msgs, pkg, n)->Ok_0.1[i]).1.len() > 0,
    decreases n,
{
    if n > 0 {
        let prev = scan(msgs, pkg, (n - 1) as nat);
        if prev is Err {
            lemma_scan_error_stays(msgs, pkg, (n - 1) as nat, n);
        } else {
            lemma_scan_dirs(msgs, pkg, (n - 1) as nat);
            let libs = scan(msgs, pkg, n)->Ok_0.1;
            let old_libs = prev->Ok_0.1;
            if let Ok(m) = msgs[n - 1] {
                if !is_artifact_of(m, pkg) && declares_libraries(m) {
                    if let Some(ps) = m.linked_paths {
                        if ps@.len() > 0 {
                            lemma_unique_nonempty(strs(ps));
                            let added = requests(strs(m.linked_libs->Some_0), strs(ps));
                            assert(libs == old_libs + added);
                            assert forall|i: int| 0 <= i < libs.len() implies (#[trigger] libs[i]).1.len() > 0 by {
                                if i >= old_libs.len() {
                                    assert(libs[i] == added[i - old_libs.len()]);
                                }
                            }
                        }
                    }
                }
            }
        }
    }
}

/// Every library request of a successful interpretation has at least one
/// directory in which to look for the library.
pub proof fn law_requests_have_dirs(msgs: Seq<Result<BuildMessage, String>>, pkg: String)
    requires
        interpretation_of(msgs, pkg) is Ok,
    ensures
        forall|i: int|
            0 <= i < interpretation_of(msgs, pkg)->Ok_0.1.len() ==> (#[trigger] interpretation_of(
                msgs,
                pkg,
            )->Ok_0.1[i]).1.len() > 0,
{
    lemma_scan_dirs(msgs, pkg@, msgs.len());
}

} // verus!
