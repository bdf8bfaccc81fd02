//! Configuration resolution: derives every path from the repo root and applies
//! the environment overrides (`MMA_DB`, `MMA_PYTHON`, `MMA_SIDECAR`,
//! `MMA_SCRAPER`) over the defaults.
//!
//! Paths are held as strings. The two facts that need the file system (is
//! there a `.venv` interpreter, which scraper binaries are executable) are
//! taken as arguments, so the whole precedence is decided here.

use vstd::prelude::*;
use crate::text::{chars_of, push_str, seq_eq};

verus! {

/// `base` joined with the relative component `part` by a `/`, which is left
/// out when `base` is empty or already ends in one.
pub open spec fn path_join(base: Seq<char>, part: Seq<char>) -> Seq<char> {
    if base.len() == 0 || base.last() == '/' {
        base + part
    } else {
        base + seq!['/'] + part
    }
}

/// Joins a relative path component onto `base`.
pub fn join_path(base: &str, part: &str) -> (r: String)
    ensures
        r@ == path_join(base@, part@),
{
    let v = chars_of(base);
    let mut out = String::new();
    push_str(&mut out, base);
    if v.len() > 0 && v[v.len() - 1] != '/' {
        out.push('/');
    }
    push_str(&mut out, part);
    out
}

/// File names under `scraper-go/` that are tried, in order, as a prebuilt
/// scraper binary.
pub const SCRAPER_BINARY_NAMES: [&'static str; 3] = ["scraper-go", "scraper", "scraper-go.bin"];

/// The `i`-th scraper binary name.
pub open spec fn scraper_binary_name(i: int) -> Seq<char> {
    if i == 0 { "scraper-go"@ } else if i == 1 { "scraper"@ } else { "scraper-go.bin"@ }
}

/// `<root>/ml`.
pub open spec fn ml_dir_of(root: Seq<char>) -> Seq<char> {
    path_join(root, "ml"@)
}

/// `<root>/ml/serve.py`.
pub open spec fn sidecar_script_of(root: Seq<char>) -> Seq<char> {
    path_join(ml_dir_of(root), "serve.py"@)
}

/// `<root>/scraper-go`.
pub open spec fn scraper_dir_of(root: Seq<char>) -> Seq<char> {
    path_join(root, "scraper-go"@)
}

/// `<root>/data/ufc.db`.
pub open spec fn default_db_of(root: Seq<char>) -> Seq<char> {
    path_join(path_join(root, "data"@), "ufc.db"@)
}

/// `<root>/.venv/bin/python`.
pub open spec fn venv_python_of(root: Seq<char>) -> Seq<char> {
    path_join(path_join(path_join(root, ".venv"@), "bin"@), "python"@)
}

/// The repo's virtual-environment interpreter, `<root>/.venv/bin/python`,
/// whose presence decides the default interpreter.
pub fn venv_python_path(repo_root: &str) -> (p: String)
    ensures
        p@ == venv_python_of(repo_root@),
{
    let a = join_path(repo_root, ".venv");
    let b = join_path(a.as_str(), "bin");
    join_path(b.as_str(), "python")
}

/// `<root>/scraper-go`, the scraper's working directory.
pub fn scraper_dir_path(repo_root: &str) -> (p: String)
    ensures
        p@ == scraper_dir_of(repo_root@),
{
    join_path(repo_root, "scraper-go")
}

/// The candidate prebuilt scraper binaries under `scraper_dir`, in the order
/// they are tried.
pub fn scraper_candidates(scraper_dir: &str) -> (c: Vec<String>)
    ensures
        c@.len() == 3,
        forall|i: int| 0 <= i < 3 ==> (#[trigger] c@[i])@ == path_join(scraper_dir@, scraper_binary_name(i)),
{
    proof {
        reveal_strlit("scraper-go");
        reveal_strlit("scraper");
        reveal_strlit("scraper-go.bin");
    }
    let mut c: Vec<String> = Vec::new();
    c.push(join_path(scraper_dir, SCRAPER_BINARY_NAMES[0]));
    c.push(join_path(scraper_dir, SCRAPER_BINARY_NAMES[1]));
    c.push(join_path(scraper_dir, SCRAPER_BINARY_NAMES[2]));
    c
}

/// How the Go scraper is invoked.
#[derive(Debug, Clone, PartialEq)]
pub enum ScraperLaunch {
    /// A prebuilt scraper binary run directly.
    Binary(String),
    /// `go run .` with this directory as the working directory.
    GoRun { dir: String },
}

/// How the Python sidecar is launched.
#[derive(Debug, Clone, PartialEq)]
pub enum SidecarLaunch {
    /// `python <script>`.
    Script { python: String, script: String },
    /// A single executable run with no script argument (`MMA_SIDECAR`).
    Executable(String),
}

/// The override variables, each `None` when unset or empty.
#[derive(Debug, Clone, PartialEq)]
pub struct EnvVars {
    /// `MMA_DB`: the database path, verbatim.
    pub mma_db: Option<String>,
    /// `MMA_PYTHON`: the Python interpreter.
    pub mma_python: Option<String>,
    /// `MMA_SIDECAR`: a single sidecar executable.
    pub mma_sidecar: Option<String>,
    /// `MMA_SCRAPER`: a single scraper executable.
    pub mma_scraper: Option<String>,
}

impl Default for EnvVars {
    fn default() -> (e: EnvVars)
        ensures
            e.mma_db is None,
            e.mma_python is None,
            e.mma_sidecar is None,
            e.mma_scraper is None,
    {
        EnvVars { mma_db: None, mma_python: None, mma_sidecar: None, mma_scraper: None }
    }
}

/// What the file system said about the default launch candidates.
#[derive(Debug, Clone, PartialEq)]
pub struct FsProbe {
    /// `<root>/.venv/bin/python` is a regular file.
    pub venv_python_is_file: bool,
    /// Whether each of [`scraper_candidates`] is an executable file, in order.
    pub scraper_binary_is_executable: Vec<bool>,
}

/// The character view of an optional string.
pub open spec fn opt_view(o: Option<String>) -> Option<Seq<char>> {
    match o {
        Some(s) => Some(s@),
        None => None,
    }
}

/// The interpreter: `MMA_PYTHON`, else the repo `.venv` interpreter when it
/// exists, else `python3` from `PATH`.
pub open spec fn python_of(root: Seq<char>, mma_python: Option<Seq<char>>, venv_is_file: bool) -> Seq<char> {
    match mma_python {
        Some(p) => p,
        None => if venv_is_file { venv_python_of(root) } else { "python3"@ },
    }
}

/// Resolves the Python interpreter per the documented precedence.
pub fn resolve_python(repo_root: &str, mma_python: Option<&str>, venv_python_is_file: bool) -> (p: String)
    ensures
        p@ == python_of(
            repo_root@,
            match mma_python { Some(s) => Some(s@), None => None },
            venv_python_is_file,
        ),
{
    match mma_python {
        Some(p) => p.to_owned(),
        None => {
            if venv_python_is_file {
                venv_python_path(repo_root)
            } else {
                proof {
                    reveal_strlit("python3");
                }
                "python3".to_owned()
            }
        },
    }
}

/// The sidecar launch: `MMA_SIDECAR` alone when set, else `python <script>`.
pub open spec fn sidecar_is(r: SidecarLaunch, python: Seq<char>, script: Seq<char>, mma_sidecar: Option<Seq<char>>) -> bool {
    match mma_sidecar {
        Some(exe) => r matches SidecarLaunch::Executable(e) && e@ == exe,
        None => r matches SidecarLaunch::Script { python: p, script: s } && p@ == python && s@ == script,
    }
}

/// Resolves how to launch the sidecar.
pub fn resolve_sidecar(python: &str, sidecar_script: &str, mma_sidecar: Option<&str>) -> (r: SidecarLaunch)
    ensures
        sidecar_is(r, python@, sidecar_script@, match mma_sidecar { Some(s) => Some(s@), None => None }),
{
    match mma_sidecar {
        Some(exe) => SidecarLaunch::Executable(exe.to_owned()),
        None => SidecarLaunch::Script { python: python.to_owned(), script: sidecar_script.to_owned() },
    }
}

/// The first of the (at most three) candidates marked executable.
pub open spec fn first_executable(flags: Seq<bool>) -> Option<int> {
    if flags.len() > 0 && flags[0] {
        Some(0)
    } else if flags.len() > 1 && flags[1] {
        Some(1)
    } else if flags.len() > 2 && flags[2] {
        Some(2)
    } else {
        None
    }
}

/// The scraper launch: `MMA_SCRAPER` verbatim when set, else the first
/// executable prebuilt binary, else `go run .` in the scraper directory.
pub open spec fn scraper_is(r: ScraperLaunch, dir: Seq<char>, mma_scraper: Option<Seq<char>>, flags: Seq<bool>) -> bool {
    match mma_scraper {
        Some(exe) => r matches ScraperLaunch::Binary(b) && b@ == exe,
        None => match first_executable(flags) {
            Some(i) => r matches ScraperLaunch::Binary(b) && b@ == path_join(dir, scraper_binary_name(i)),
            None => r matches ScraperLaunch::GoRun { dir: d } && d@ == dir,
        },
    }
}

/// Resolves how to launch the scraper. `executable[i]` says whether the
/// `i`-th of [`scraper_candidates`] is an executable file.
pub fn resolve_scraper(scraper_dir: &str, mma_scraper: Option<&str>, executable: &[bool]) -> (r: ScraperLaunch)
    ensures
        scraper_is(r, scraper_dir@, match mma_scraper { Some(s) => Some(s@), None => None }, executable@),
{
    if let Some(exe) = mma_scraper {
        return ScraperLaunch::Binary(exe.to_owned());
    }
    let cands = scraper_candidates(scraper_dir);
    let mut i: usize = 0;
    while i < 3 && i < executable.len()
        invariant
            mma_scraper is None,
            i <= 3,
            cands@.len() == 3,
            forall|k: int| 0 <= k < 3 ==> (#[trigger] cands@[k])@ == path_join(scraper_dir@, scraper_binary_name(k)),
            forall|k: int| 0 <= k < i && k < executable@.len() ==> !executable@[k],
        decreases 3 - i,
    {
        if executable[i] {
            let b = cands[i].clone();
            assert(first_executable(executable@) == Some(i as int));
            assert(b@ == path_join(scraper_dir@, scraper_binary_name(i as int)));
            return ScraperLaunch::Binary(b);
        }
        i += 1;
    }
    ScraperLaunch::GoRun { dir: scraper_dir.to_owned() }
}

/// The fully resolved configuration for one session.
#[derive(Debug, Clone, PartialEq)]
pub struct Config {
    /// The repo root (the ancestor holding `data/ufc.db`).
    pub repo_root: String,
    /// The read-only database: `<root>/data/ufc.db`, or `MMA_DB` verbatim.
    pub db_path: String,
    /// The Python interpreter.
    pub python: String,
    /// `<root>/ml/serve.py`.
    pub sidecar_script: String,
    /// How to launch the sidecar.
    pub sidecar: SidecarLaunch,
    /// `<root>/ml`, the sidecar and training working directory.
    pub ml_dir: String,
    /// `<root>/scraper-go`, the scraper working directory.
    pub scraper_dir: String,
    /// How to launch the scraper.
    pub scraper: ScraperLaunch,
}

/// Every field of `c` follows the override rules for `root`, `env` and the
/// file-system answers in `probe`.
pub open spec fn resolved(c: Config, root: Seq<char>, env: EnvVars, probe: FsProbe) -> bool {
    let python = python_of(root, opt_view(env.mma_python), probe.venv_python_is_file);
    &&& c.repo_root@ == root
    &&& c.db_path@ == (match env.mma_db { Some(db) => db@, None => default_db_of(root) })
    &&& c.python@ == python
    &&& c.sidecar_script@ == sidecar_script_of(root)
    &&& sidecar_is(c.sidecar, python, sidecar_script_of(root), opt_view(env.mma_sidecar))
    &&& c.ml_dir@ == ml_dir_of(root)
    &&& c.scraper_dir@ == scraper_dir_of(root)
    &&& scraper_is(c.scraper, scraper_dir_of(root), opt_view(env.mma_scraper), probe.scraper_binary_is_executable@)
}

fn as_str_opt(o: &Option<String>) -> (r: Option<&str>)
    ensures
        (match r { Some(s) => Some(s@), None => None::<Seq<char>> }) == opt_view(*o),
{
    match o {
        Some(s) => Some(s.as_str()),
        None => None,
    }
}

impl Config {
    /// Builds the configuration from a resolved repo root, the override
    /// variables and the file-system answers, applying every override rule.
    pub fn resolve(repo_root: String, env: &EnvVars, probe: &FsProbe) -> (c: Config)
        ensures
            resolved(c, repo_root@, *env, *probe),
    {
        let ml_dir = join_path(repo_root.as_str(), "ml");
        let sidecar_script = join_path(ml_dir.as_str(), "serve.py");
        let scraper_dir = scraper_dir_path(repo_root.as_str());
        let db_path = match &env.mma_db {
            Some(db) => db.clone(),
            None => {
                let data = join_path(repo_root.as_str(), "data");
                join_path(data.as_str(), "ufc.db")
            },
        };
        let python = resolve_python(repo_root.as_str(), as_str_opt(&env.mma_python), probe.venv_python_is_file);
        let sidecar = resolve_sidecar(python.as_str(), sidecar_script.as_str(), as_str_opt(&env.mma_sidecar));
        let scraper = resolve_scraper(
            scraper_dir.as_str(),
            as_str_opt(&env.mma_scraper),
            probe.scraper_binary_is_executable.as_slice(),
        );
        Config { repo_root, db_path, python, sidecar_script, sidecar, ml_dir, scraper_dir, scraper }
    }
}

// ------------------------------------------------------------------------- //
// Comparing paths by their components
// ------------------------------------------------------------------------- //

/// The `/`-separated segments of a path, empty ones included (so there is
/// always at least one).
pub open spec fn segments(s: Seq<char>) -> Seq<Seq<char>>
    decreases s.len(),
{
    if s.len() == 0 {
        seq![Seq::<char>::empty()]
    } else {
        let p = segments(s.drop_last());
        if s.last() == '/' {
            p.push(Seq::empty())
        } else {
            p.update(p.len() - 1, p.last().push(s.last()))
        }
    }
}

/// A segment that names something: not empty, and not the current directory
/// `.`.
pub open spec fn is_named(g: Seq<char>) -> bool {
    g.len() > 0 && g != seq!['.']
}

/// The named segments, in order.
pub open spec fn named_only(gs: Seq<Seq<char>>) -> Seq<Seq<char>>
    decreases gs.len(),
{
    if gs.len() == 0 {
        Seq::empty()
    } else {
        let r = named_only(gs.drop_last());
        if is_named(gs.last()) { r.push(gs.last()) } else { r }
    }
}

/// The path starts at the root.
pub open spec fn has_root(s: Seq<char>) -> bool {
    s.len() > 0 && s[0] == '/'
}

/// A relative path that starts with the current directory, as `./x` does.
pub open spec fn leads_with_cur_dir(s: Seq<char>) -> bool {
    !has_root(s) && segments(s)[0] == seq!['.']
}

/// Two paths are the same path when their components agree: the root, a
/// leading `.`, and the named segments in order. Repeated separators, a
/// trailing separator and inner `.` segments make no difference.
pub open spec fn same_path(a: Seq<char>, b: Seq<char>) -> bool {
    &&& has_root(a) == has_root(b)
    &&& leads_with_cur_dir(a) == leads_with_cur_dir(b)
    &&& named_only(segments(a)) == named_only(segments(b))
}

/// The character views of a list of character vectors.
pub open spec fn deep(v: Seq<Vec<char>>) -> Seq<Seq<char>> {
    v.map_values(|x: Vec<char>| x@)
}

proof fn lemma_segments_nonempty(s: Seq<char>)
    ensures
        segments(s).len() >= 1,
    decreases s.len(),
{
    if s.len() > 0 {
        lemma_segments_nonempty(s.drop_last());
    }
}

/// The components of a path: whether it has a root, whether it leads with
/// `.`, and its named segments.
fn path_parts(path: &str) -> (r: (bool, bool, Vec<Vec<char>>))
    ensures
        r.0 == has_root(path@),
        r.1 == leads_with_cur_dir(path@),
        deep(r.2@) == named_only(segments(path@)),
{
    let v = chars_of(path);
    let mut done: Vec<Vec<char>> = Vec::new();
    let mut cur: Vec<char> = Vec::new();
    let mut first: Vec<char> = Vec::new();
    let mut seen_slash = false;
    let mut i: usize = 0;
    assert(v@.take(0) =~= Seq::<char>::empty());
    while i < v.len()
        invariant
            v@ == path@,
            i <= v.len(),
            segments(v@.take(i as int)).len() >= 1,
            cur@ == segments(v@.take(i as int)).last(),
            first@ == segments(v@.take(i as int))[0],
            seen_slash == (segments(v@.take(i as int)).len() > 1),
            deep(done@) == named_only(segments(v@.take(i as int)).drop_last()),
        decreases v.len() - i,
    {
        let ghost sg = segments(v@.take(i as int));
        let c = v[i];
        proof {
            assert(v@.take(i + 1).drop_last() =~= v@.take(i as int));
            assert(v@.take(i + 1).last() == c);
        }
        if c == '/' {
            let ghost before = done@;
            if cur.len() > 0 && !(cur.len() == 1 && cur[0] == '.') {
                proof {
                    assert(is_named(cur@)) by {
                        if cur@ == seq!['.'] {
                            assert(cur@.len() == 1 && cur@[0] == '.');
                        }
                    }
                }
                done.push(cur);
                assert(deep(done@) =~= deep(before).push(sg.last()));
            } else {
                proof {
                    if cur@.len() == 1 && cur@[0] == '.' {
                        assert(cur@ =~= seq!['.']);
                    }
                }
            }
            cur = Vec::new();
            seen_slash = true;
            proof {
                let sg2 = segments(v@.take(i + 1));
                assert(sg2 == sg.push(Seq::empty()));
                assert(sg2.drop_last() =~= sg);
                assert(sg.drop_last() =~= sg.drop_last());
                assert(sg2[0] == sg[0]);
                assert(cur@ =~= sg2.last());
            }
        } else {
            cur.push(c);
            if !seen_slash {
                first.push(c);
            }
            proof {
                let sg2 = segments(v@.take(i + 1));
                assert(sg2 == sg.update(sg.len() - 1, sg.last().push(c)));
                assert(sg2.drop_last() =~= sg.drop_last());
                assert(cur@ =~= sg2.last());
                assert(first@ =~= sg2[0]);
            }
        }
        i += 1;
    }
    assert(v@.take(v.len() as int) =~= v@);
    let ghost sg = segments(v@);
    let ghost before = done@;
    if cur.len() > 0 && !(cur.len() == 1 && cur[0] == '.') {
        proof {
            assert(is_named(cur@)) by {
                if cur@ == seq!['.'] {
                    assert(cur@.len() == 1 && cur@[0] == '.');
                }
            }
        }
        done.push(cur);
        assert(deep(done@) =~= deep(before).push(sg.last()));
    } else {
        proof {
            if cur@.len() == 1 && cur@[0] == '.' {
                assert(cur@ =~= seq!['.']);
            }
        }
    }
    let root = v.len() > 0 && v[0] == '/';
    let lead = !root && first.len() == 1 && first[0] == '.';
    proof {
        if first@.len() == 1 && first@[0] == '.' {
            assert(first@ =~= seq!['.']);
        }
    }
    (root, lead, done)
}

/// Whether two lists of character vectors hold the same sequences.
fn char_vecs_eq(a: &Vec<Vec<char>>, b: &Vec<Vec<char>>) -> (r: bool)
    ensures
        r == (deep(a@) == deep(b@)),
{
    if a.len() != b.len() {
        assert(deep(a@).len() != deep(b@).len());
        return false;
    }
    let mut i: usize = 0;
    while i < a.len()
        invariant
            a.len() == b.len(),
            i <= a.len(),
            forall|k: int| 0 <= k < i ==> a@[k]@ == b@[k]@,
        decreases a.len() - i,
    {
        if !seq_eq(&a[i], &b[i]) {
            assert(deep(a@)[i as int] != deep(b@)[i as int]);
            return false;
        }
        i += 1;
    }
    assert(deep(a@) =~= deep(b@));
    true
}

/// Whether `a` and `b` name the same path, compared by components.
pub fn paths_equal(a: &str, b: &str) -> (r: bool)
    ensures
        r == same_path(a@, b@),
{
    let (ra, la, na) = path_parts(a);
    let (rb, lb, nb) = path_parts(b);
    ra == rb && la == lb && char_vecs_eq(&na, &nb)
}

impl Config {
    /// The repo's own database location, `<root>/data/ufc.db`.
    pub fn default_db_path(&self) -> (p: String)
        ensures
            p@ == default_db_of(self.repo_root@),
    {
        let data = join_path(self.repo_root.as_str(), "data");
        join_path(data.as_str(), "ufc.db")
    }

    /// The `--db` value to hand the scraper: nothing when the database is the
    /// repo default, compared as a path (the scraper keeps its own relative
    /// default), else the configured path.
    pub fn db_flag(&self) -> (d: Option<String>)
        ensures
            match d {
                None => same_path(self.db_path@, default_db_of(self.repo_root@)),
                Some(p) => !same_path(self.db_path@, default_db_of(self.repo_root@)) && p@ == self.db_path@,
            },
    {
        let default = self.default_db_path();
        if paths_equal(self.db_path.as_str(), default.as_str()) {
            None
        } else {
            Some(self.db_path.clone())
        }
    }
}

/// Each override replaces exactly its own field: `MMA_DB` decides only the
/// database path, `MMA_SIDECAR` only the sidecar launch, `MMA_SCRAPER` only the
/// scraper launch, and `MMA_PYTHON` only the interpreter (and with it the
/// default sidecar's interpreter); every other field is what it is without it.
pub proof fn overrides_are_independent(c: Config, d: Config, root: Seq<char>, env: EnvVars, probe: FsProbe)
    requires
        resolved(c, root, env, probe),
        resolved(d, root, EnvVars { mma_db: None, mma_python: env.mma_python, mma_sidecar: None, mma_scraper: None }, probe),
    ensures
        c.repo_root@ == d.repo_root@,
        c.python@ == d.python@,
        c.sidecar_script@ == d.sidecar_script@,
        c.ml_dir@ == d.ml_dir@,
        c.scraper_dir@ == d.scraper_dir@,
        env.mma_db is None ==> c.db_path@ == d.db_path@,
        env.mma_sidecar is None ==> sidecar_is(c.sidecar, d.python@, d.sidecar_script@, None),
        env.mma_scraper is None ==> scraper_is(c.scraper, d.scraper_dir@, None, probe.scraper_binary_is_executable@),
{
}

} // verus!
