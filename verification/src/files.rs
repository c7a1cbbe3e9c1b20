//! File search: the command lines of the search tools, and what their output
//! becomes.

use crate::text::{decimal_digits, decimal_string, lines, lines_of};
use crate::tools::{texts, InvocationView, ToolInvocation, ToolOutput};
use vstd::prelude::*;
use vstd::string::{StrSliceExecFns, StringExecFns};

verus! {

/// One file or directory that a search found.
#[derive(Debug)]
pub struct FileResult {
    pub name: String,
    pub path: String,
    pub is_dir: bool,
    pub extension: Option<String>,
}

/// A result as plain values.
pub struct FileView {
    pub name: Seq<char>,
    pub path: Seq<char>,
    pub is_dir: bool,
    pub extension: Option<Seq<char>>,
}

impl View for FileResult {
    type V = FileView;

    open spec fn view(&self) -> FileView {
        FileView {
            name: self.name@,
            path: self.path@,
            is_dir: self.is_dir,
            extension: crate::tools::opt_text(self.extension),
        }
    }
}

impl Clone for FileResult {
    fn clone(&self) -> (copy: Self)
        ensures
            copy@ == self@,
    {
        FileResult {
            name: self.name.clone(),
            path: self.path.clone(),
            is_dir: self.is_dir,
            extension: crate::tools::clone_opt(&self.extension),
        }
    }
}

/// The results of a sequence as plain values.
pub open spec fn file_views(items: Seq<FileResult>) -> Seq<FileView> {
    items.map_values(|f: FileResult| f@)
}

/// One run of a search tool.
#[derive(Debug)]
pub struct SearchStep {
    /// The command line.
    pub invocation: ToolInvocation,
    /// The directory to run it in; the step is skipped if the directory
    /// does not exist. Without one the tool runs where the process stands.
    pub dir: Option<String>,
}

/// A step as plain values.
pub struct StepView {
    pub invocation: InvocationView,
    pub dir: Option<Seq<char>>,
}

impl View for SearchStep {
    type V = StepView;

    open spec fn view(&self) -> StepView {
        StepView { invocation: self.invocation@, dir: crate::tools::opt_text(self.dir) }
    }
}

/// The steps of a sequence as plain values.
pub open spec fn step_views(steps: Seq<SearchStep>) -> Seq<StepView> {
    steps.map_values(|s: SearchStep| s@)
}

/// The home directory that a search starts from.
pub open spec fn home_of(home: Option<Seq<char>>) -> Seq<char> {
    match home {
        Some(h) => h,
        None => "/home"@,
    }
}

/// The arguments of `fd` for a query.
pub open spec fn fd_arguments(query: Seq<char>, max_results: nat, folders_only: bool) -> Seq<
    Seq<char>,
> {
    seq![
        "--hidden"@,
        "--no-ignore"@,
        "--max-depth"@,
        "4"@,
        "--max-results"@,
        decimal_digits(max_results),
        "-i"@,
    ] + (if folders_only {
        seq!["--type"@, "d"@]
    } else {
        seq!["--type"@, "f"@, "--type"@, "d"@]
    }) + seq![query]
}

/// The arguments of `find` for a query.
pub open spec fn find_arguments(home: Seq<char>, query: Seq<char>, folders_only: bool) -> Seq<
    Seq<char>,
> {
    seq![home, "-maxdepth"@, "4"@] + (if folders_only {
        seq!["-type"@, "d"@]
    } else {
        Seq::empty()
    }) + seq!["-iname"@, "*"@ + query + "*"@, "-print"@]
}

/// The directories that `fd` searches, in order.
pub open spec fn search_dirs_of(home: Seq<char>) -> Seq<Seq<char>> {
    seq![
        home,
        home + "/Documents"@,
        home + "/Downloads"@,
        home + "/Desktop"@,
        home + "/Projects"@,
    ]
}

/// The steps of a search. An empty query searches nothing. With `fd` there
/// is one step for each search directory; with `find` a single one.
pub open spec fn search_steps(
    use_fd: bool,
    query: Seq<char>,
    max_results: nat,
    folders_only: bool,
    home: Seq<char>,
) -> Seq<StepView> {
    if query.len() == 0 {
        Seq::empty()
    } else if use_fd {
        search_dirs_of(home).map_values(
            |dir: Seq<char>|
                StepView {
                    invocation: InvocationView {
                        program: "fd"@,
                        args: fd_arguments(query, max_results, folders_only),
                    },
                    dir: Some(dir),
                },
        )
    } else {
        seq![
            StepView {
                invocation: InvocationView {
                    program: "find"@,
                    args: find_arguments(home, query, folders_only),
                },
                dir: None,
            },
        ]
    }
}

/// The path that a line of output names: the line itself if it starts at the
/// root, the line inside the step's directory otherwise.
pub open spec fn result_path_of(dir: Option<Seq<char>>, line: Seq<char>) -> Seq<char> {
    match dir {
        Some(d) => if line.len() > 0 && line[0] == '/' {
            line
        } else if d.len() > 0 && d.last() == '/' {
            d + line
        } else {
            d + "/"@ + line
        },
        None => line,
    }
}

/// How many lines of a step's output are read: with `fd`, as many as are
/// missing to the limit; with `find`, the limit.
pub open spec fn lines_read(use_fd: bool, max_results: nat, have: nat) -> nat {
    if use_fd {
        if have < max_results {
            (max_results - have) as nat
        } else {
            0
        }
    } else {
        max_results
    }
}

/// The paths that a step's output names, as far as they are read.
pub open spec fn output_paths_of(
    dir: Option<Seq<char>>,
    text: Seq<char>,
    limit: nat,
) -> Seq<Seq<char>> {
    crate::apps::truncated(lines_of(text), limit as int).map_values(
        |line: Seq<char>| result_path_of(dir, line),
    )
}

/// The result for a path, given what the file system and the path's last
/// component say of it. A path without a file name gives none; a directory
/// has no extension.
pub open spec fn result_of(
    name: Option<Seq<char>>,
    path: Seq<char>,
    is_dir: bool,
    extension: Option<Seq<char>>,
) -> Option<FileView> {
    match name {
        Some(n) => Some(
            FileView {
                name: n,
                path,
                is_dir,
                extension: if is_dir {
                    None
                } else {
                    extension
                },
            },
        ),
        None => None,
    }
}

/// The view of an optional result.
pub open spec fn opt_file(f: Option<FileResult>) -> Option<FileView> {
    match f {
        Some(r) => Some(r@),
        None => None,
    }
}

/// The candidates of a sequence as plain values.
pub open spec fn candidate_views(items: Seq<Option<FileResult>>) -> Seq<Option<FileView>> {
    items.map_values(|c: Option<FileResult>| opt_file(c))
}

/// The results that a list of candidates holds, in order.
pub open spec fn present(candidates: Seq<Option<FileView>>) -> Seq<FileView>
    decreases candidates.len(),
{
    if candidates.len() == 0 {
        Seq::empty()
    } else {
        match candidates.last() {
            Some(f) => present(candidates.drop_last()).push(f),
            None => present(candidates.drop_last()),
        }
    }
}

/// The results of a search after the candidates of one step were taken in:
/// they follow what was there, in order, as far as the limit leaves room.
pub open spec fn absorbed(
    have: Seq<FileView>,
    candidates: Seq<Option<FileView>>,
    max_results: nat,
) -> Seq<FileView> {
    if have.len() >= max_results {
        have
    } else {
        crate::apps::truncated(have + present(candidates), max_results as int)
    }
}

/// Taking candidates in never passes the limit, and keeps what was there.
pub proof fn lemma_absorbed_is_bounded(
    have: Seq<FileView>,
    candidates: Seq<Option<FileView>>,
    max_results: nat,
)
    ensures
        have.len() <= max_results ==> absorbed(have, candidates, max_results).len()
            <= max_results,
        absorbed(have, candidates, max_results).len() >= have.len(),
        absorbed(have, candidates, max_results).subrange(0, have.len() as int) == have,
{
    let out = absorbed(have, candidates, max_results);
    assert(out.subrange(0, have.len() as int) =~= have);
}

/// The last component of a path, by `std::path::Path::file_name`, with
/// `to_string_lossy` for the text. Nothing is claimed of it.
#[verifier::external_body]
fn file_name(path: &str) -> (name: Option<String>) {
    std::path::Path::new(path).file_name().map(|s| s.to_string_lossy().into_owned())
}

/// The extension of a path's file name, by `std::path::Path::extension`,
/// with `to_string_lossy` for the text. Nothing is claimed of it.
#[verifier::external_body]
fn path_extension(path: &str) -> (extension: Option<String>) {
    std::path::Path::new(path).extension().map(|s| s.to_string_lossy().into_owned())
}

/// Builds the result for a path from its parts.
pub fn make_result(name: Option<String>, path: &str, is_dir: bool, extension: Option<String>) -> (r:
    Option<FileResult>)
    ensures
        opt_file(r) == result_of(
            crate::tools::opt_text(name),
            path@,
            is_dir,
            crate::tools::opt_text(extension),
        ),
{
    match name {
        Some(n) => Some(
            FileResult {
                name: n,
                path: String::from_str(path),
                is_dir,
                extension: if is_dir {
                    None
                } else {
                    extension
                },
            },
        ),
        None => None,
    }
}

/// The searcher: which tool it runs.
#[derive(Debug, Clone, Copy, PartialEq, Eq, Structural)]
pub struct FileSearcher {
    /// Run `fd` if it is installed, `find` otherwise.
    pub use_fd: bool,
}

impl FileSearcher {
    /// The command line that tells whether `fd` is installed.
    pub fn probe() -> (inv: ToolInvocation)
        ensures
            inv@ == (InvocationView { program: "fd"@, args: seq!["--version"@] }),
    {
        let args = vec![String::from_str("--version")];
        assert(texts(args@) =~= seq!["--version"@]);
        ToolInvocation { program: String::from_str("fd"), args }
    }

    /// A searcher, given what the probe returned: `fd` is used only if the
    /// probe ran and succeeded.
    pub fn new(probe: Option<&ToolOutput>) -> (searcher: Self)
        ensures
            searcher.use_fd == (probe matches Some(out) && out.success),
    {
        match probe {
            Some(out) => FileSearcher { use_fd: out.success },
            None => FileSearcher { use_fd: false },
        }
    }

    /// The steps of a search for a query; `home` is the home directory as
    /// the environment has it.
    pub fn search(
        &self,
        query: &str,
        max_results: usize,
        folders_only: bool,
        home: Option<&str>,
    ) -> (steps: Vec<SearchStep>)
        ensures
            step_views(steps@) == search_steps(
                self.use_fd,
                query@,
                max_results as nat,
                folders_only,
                home_of(crate::desktop::opt_str(home)),
            ),
    {
        let mut steps: Vec<SearchStep> = Vec::new();
        if query.is_empty() {
            assert(step_views(steps@) =~= Seq::empty());
            return steps;
        }
        let home = match home {
            Some(h) => h,
            None => "/home",
        };
        if self.use_fd {
            self.search_fd(query, max_results, folders_only, home)
        } else {
            self.search_find(query, folders_only, home)
        }
    }

    /// The steps of a search with `fd`.
    pub fn search_fd(&self, query: &str, max_results: usize, folders_only: bool, home: &str) -> (steps:
        Vec<SearchStep>)
        ensures
            step_views(steps@) == search_dirs_of(home@).map_values(
                |dir: Seq<char>|
                    StepView {
                        invocation: InvocationView {
                            program: "fd"@,
                            args: fd_arguments(query@, max_results as nat, folders_only),
                        },
                        dir: Some(dir),
                    },
            ),
    {
        let dirs = search_dirs(home);
        let mut steps: Vec<SearchStep> = Vec::new();
        let mut i: usize = 0;
        while i < dirs.len()
            invariant
                i <= dirs.len(),
                steps@.len() == i,
                forall|k: int|
                    0 <= k < i ==> (#[trigger] steps@[k])@ == (StepView {
                        invocation: InvocationView {
                            program: "fd"@,
                            args: fd_arguments(query@, max_results as nat, folders_only),
                        },
                        dir: Some(dirs@[k]@),
                    }),
            decreases dirs.len() - i,
        {
            let args = fd_args(query, max_results, folders_only);
            steps.push(
                SearchStep {
                    invocation: ToolInvocation { program: String::from_str("fd"), args },
                    dir: Some(dirs[i].clone()),
                },
            );
            i += 1;
        }
        assert(step_views(steps@) =~= texts(dirs@).map_values(
            |dir: Seq<char>|
                StepView {
                    invocation: InvocationView {
                        program: "fd"@,
                        args: fd_arguments(query@, max_results as nat, folders_only),
                    },
                    dir: Some(dir),
                },
        ));
        steps
    }

    /// The single step of a search with `find`.
    pub fn search_find(&self, query: &str, folders_only: bool, home: &str) -> (steps: Vec<
        SearchStep,
    >)
        ensures
            step_views(steps@) == seq![
                StepView {
                    invocation: InvocationView {
                        program: "find"@,
                        args: find_arguments(home@, query@, folders_only),
                    },
                    dir: None,
                },
            ],
    {
        let args = find_args(home, query, folders_only);
        let steps = vec![
            SearchStep {
                invocation: ToolInvocation { program: String::from_str("find"), args },
                dir: None,
            },
        ];
        assert(step_views(steps@) =~= seq![
            StepView {
                invocation: InvocationView {
                    program: "find"@,
                    args: find_arguments(home@, query@, folders_only),
                },
                dir: None,
            },
        ]);
        steps
    }

    /// How many lines of the next step's output to read, given how many
    /// results there are.
    pub fn line_limit(&self, max_results: usize, have: usize) -> (limit: usize)
        ensures
            limit == lines_read(self.use_fd, max_results as nat, have as nat),
    {
        if self.use_fd {
            if have < max_results {
                max_results - have
            } else {
                0
            }
        } else {
            max_results
        }
    }

    /// Whether the search ends before its next step: once the limit is
    /// reached.
    pub fn is_complete(&self, max_results: usize, have: usize) -> (done: bool)
        ensures
            done == (have >= max_results),
    {
        have >= max_results
    }

    /// Converts a path to a result, given whether the file system says it is
    /// a directory. There is no result for a path without a file name; a
    /// result carries the path, and a directory carries no extension.
    pub fn path_to_result(&self, path: &str, is_dir: bool) -> (r: Option<FileResult>)
        ensures
            r matches Some(f) ==> f.path@ == path@ && f.is_dir == is_dir && (is_dir
                ==> f.extension is None),
    {
        let name = file_name(path);
        let extension = if is_dir {
            None
        } else {
            path_extension(path)
        };
        make_result(name, path, is_dir, extension)
    }

    /// Takes the paths that one step found into the results, each with the
    /// flag that says whether it is a directory. The results never pass the
    /// limit; what was there stays in front; what joins is what the paths
    /// became, in their order.
    pub fn absorb(
        &self,
        results: &mut Vec<FileResult>,
        found: &Vec<(String, bool)>,
        max_results: usize,
    )
        ensures
            old(results)@.len() <= max_results ==> final(results)@.len() <= max_results,
            exists|candidates: Seq<Option<FileView>>|
                {
                    &&& candidates.len() == found@.len()
                    &&& forall|k: int|
                        0 <= k < found@.len() ==> may_come_of(
                            #[trigger] candidates[k],
                            found@[k].0@,
                            found@[k].1,
                        )
                    &&& file_views(final(results)@) == absorbed(
                        file_views(old(results)@),
                        candidates,
                        max_results as nat,
                    )
                },
    {
        let mut candidates: Vec<Option<FileResult>> = Vec::new();
        let mut i: usize = 0;
        while i < found.len()
            invariant
                i <= found.len(),
                candidates@.len() == i,
                forall|k: int|
                    0 <= k < i ==> may_come_of(
                        opt_file(#[trigger] candidates@[k]),
                        found@[k].0@,
                        found@[k].1,
                    ),
            decreases found.len() - i,
        {
            let r = self.path_to_result(found[i].0.as_str(), found[i].1);
            candidates.push(r);
            i += 1;
        }
        absorb_results(results, &candidates, max_results);
        proof {
            let witness = candidate_views(candidates@);
            assert forall|k: int| 0 <= k < found@.len() implies may_come_of(
                #[trigger] witness[k],
                found@[k].0@,
                found@[k].1,
            ) by {
                assert(witness[k] == opt_file(candidates@[k]));
            }
        }
    }
}

/// What a path with its directory flag may become: no result, or one that
/// carries the path and the flag, and no extension if it is a directory.
pub open spec fn may_come_of(candidate: Option<FileView>, path: Seq<char>, is_dir: bool) -> bool {
    candidate matches Some(f) ==> f.path == path && f.is_dir == is_dir && (is_dir
        ==> f.extension is None)
}

/// Takes the candidates of one step into the results, in order, as far as
/// the limit leaves room.
pub fn absorb_results(
    results: &mut Vec<FileResult>,
    candidates: &Vec<Option<FileResult>>,
    max_results: usize,
)
    ensures
        file_views(final(results)@) == absorbed(
            file_views(old(results)@),
            candidate_views(candidates@),
            max_results as nat,
        ),
        old(results)@.len() <= max_results ==> final(results)@.len() <= max_results,
{
    let ghost have = file_views(results@);
    let ghost all = candidate_views(candidates@);
    proof {
        lemma_absorbed_is_bounded(have, all, max_results as nat);
    }
    let mut i: usize = 0;
    assert(all.subrange(0, 0) =~= Seq::empty());
    assert(have + present(all.subrange(0, 0)) =~= have);
    while i < candidates.len()
        invariant
            i <= candidates.len(),
            all == candidate_views(candidates@),
            file_views(results@) == absorbed(have, all.subrange(0, i as int), max_results as nat),
        decreases candidates.len() - i,
    {
        let ghost before = present(all.subrange(0, i as int));
        proof {
            let prefix = all.subrange(0, i + 1);
            assert(prefix.drop_last() =~= all.subrange(0, i as int));
            assert(prefix.last() == opt_file(candidates@[i as int]));
        }
        match &candidates[i] {
            Some(f) => {
                if results.len() < max_results {
                    let ghost shown = file_views(results@);
                    assert(shown.len() == results@.len());
                    results.push(f.clone());
                    assert(file_views(results@) =~= shown.push(f@));
                    assert(shown.push(f@) =~= crate::apps::truncated(
                        have + before.push(f@),
                        max_results as int,
                    ));
                } else {
                    assert(file_views(results@).len() == results@.len());
                    assert(file_views(results@) =~= absorbed(
                        have,
                        all.subrange(0, i + 1),
                        max_results as nat,
                    ));
                }
            },
            None => {},
        }
        i += 1;
    }
    assert(all.subrange(0, all.len() as int) =~= all);
    assert(file_views(results@).len() == results@.len());
}

/// The arguments of `fd`.
pub fn fd_args(query: &str, max_results: usize, folders_only: bool) -> (args: Vec<String>)
    ensures
        texts(args@) == fd_arguments(query@, max_results as nat, folders_only),
{
    let mut args: Vec<String> = Vec::new();
    args.push(String::from_str("--hidden"));
    args.push(String::from_str("--no-ignore"));
    args.push(String::from_str("--max-depth"));
    args.push(String::from_str("4"));
    args.push(String::from_str("--max-results"));
    args.push(decimal_string(max_results as u64));
    args.push(String::from_str("-i"));
    if folders_only {
        args.push(String::from_str("--type"));
        args.push(String::from_str("d"));
    } else {
        args.push(String::from_str("--type"));
        args.push(String::from_str("f"));
        args.push(String::from_str("--type"));
        args.push(String::from_str("d"));
    }
    args.push(String::from_str(query));
    assert(texts(args@) =~= fd_arguments(query@, max_results as nat, folders_only));
    args
}

/// The arguments of `find`.
pub fn find_args(home: &str, query: &str, folders_only: bool) -> (args: Vec<String>)
    ensures
        texts(args@) == find_arguments(home@, query@, folders_only),
{
    let mut args: Vec<String> = Vec::new();
    args.push(String::from_str(home));
    args.push(String::from_str("-maxdepth"));
    args.push(String::from_str("4"));
    if folders_only {
        args.push(String::from_str("-type"));
        args.push(String::from_str("d"));
    }
    args.push(String::from_str("-iname"));
    args.push(String::from_str("*").concat(query).concat("*"));
    args.push(String::from_str("-print"));
    assert(texts(args@) =~= find_arguments(home@, query@, folders_only));
    args
}

/// The directories that `fd` searches.
pub fn search_dirs(home: &str) -> (dirs: Vec<String>)
    ensures
        texts(dirs@) == search_dirs_of(home@),
{
    let mut dirs: Vec<String> = Vec::new();
    dirs.push(String::from_str(home));
    dirs.push(String::from_str(home).concat("/Documents"));
    dirs.push(String::from_str(home).concat("/Downloads"));
    dirs.push(String::from_str(home).concat("/Desktop"));
    dirs.push(String::from_str(home).concat("/Projects"));
    assert(texts(dirs@) =~= search_dirs_of(home@));
    dirs
}

/// The path that a line of a step's output names.
pub fn result_path(dir: Option<&str>, line: &str) -> (path: String)
    ensures
        path@ == result_path_of(crate::desktop::opt_str(dir), line@),
{
    match dir {
        None => String::from_str(line),
        Some(d) => {
            if !line.is_empty() && line.get_char(0) == '/' {
                return String::from_str(line);
            }
            let n = d.unicode_len();
            if n > 0 && d.get_char(n - 1) == '/' {
                String::from_str(d).concat(line)
            } else {
                String::from_str(d).concat("/").concat(line)
            }
        },
    }
}

/// The paths that a step's output names, at most `limit` of them.
pub fn output_paths(dir: Option<&str>, text: &str, limit: usize) -> (paths: Vec<String>)
    ensures
        texts(paths@) == output_paths_of(crate::desktop::opt_str(dir), text@, limit as nat),
{
    let all = lines(text);
    let mut paths: Vec<String> = Vec::new();
    let mut i: usize = 0;
    while i < all.len() && i < limit
        invariant
            i <= all.len(),
            i <= limit,
            paths@.len() == i,
            forall|k: int|
                0 <= k < i ==> (#[trigger] paths@[k])@ == result_path_of(
                    crate::desktop::opt_str(dir),
                    all@[k]@,
                ),
        decreases all.len() - i,
    {
        paths.push(result_path(dir, all[i].as_str()));
        i += 1;
    }
    assert(texts(paths@) =~= crate::apps::truncated(texts(all@), limit as int).map_values(
        |line: Seq<char>| result_path_of(crate::desktop::opt_str(dir), line),
    ));
    paths
}

} // verus!
