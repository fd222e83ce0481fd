//! Paths as the repository sees them: an absolute flag and a list of
//! components, with `/` as the separator.
use vstd::prelude::*;
use vstd::string::StringExecFns;
use crate::config::expand;
use crate::error::{EnvmError, ErrorModel};
use crate::repository::{RepoModel, Repository};
use crate::text::{chars_of, join_with, same_text};

verus! {

/// The mathematical value of a path.
pub struct PathModel {
    pub absolute: bool,
    pub parts: Seq<Seq<char>>,
}

/// How many characters the component that starts at `i` holds before the
/// next `/`, or before the end of `s`.
pub open spec fn part_len(s: Seq<char>, i: int) -> nat
    decreases s.len() - i,
{
    if i < 0 || i >= s.len() || s[i] == '/' {
        0
    } else {
        1 + part_len(s, i + 1)
    }
}

/// The components of `s` from index `i` on: the runs between separators,
/// without empty runs and without `.`.
pub open spec fn parts_from(s: Seq<char>, i: int) -> Seq<Seq<char>>
    decreases s.len() - i,
{
    if i < 0 || i >= s.len() {
        seq![]
    } else {
        let e = i + part_len(s, i);
        let p = s.subrange(i, e);
        let rest = if e < s.len() {
            parts_from(s, e + 1)
        } else {
            seq![]
        };
        if p.len() == 0 || p == "."@ {
            rest
        } else {
            seq![p] + rest
        }
    }
}

/// The path that the text `s` denotes.
pub open spec fn parse_path(s: Seq<char>) -> PathModel {
    PathModel { absolute: s.len() > 0 && s[0] == '/', parts: parts_from(s, 0) }
}

/// `name` taken relative to `p`; an absolute `name` replaces `p`.
pub open spec fn join_path(p: PathModel, name: Seq<char>) -> PathModel {
    let q = parse_path(name);
    if q.absolute {
        q
    } else {
        PathModel { absolute: p.absolute, parts: p.parts + q.parts }
    }
}

/// A single component that names an entry in a directory.
pub open spec fn is_plain_name(s: Seq<char>) -> bool {
    &&& s.len() > 0
    &&& s != "."@
    &&& s != ".."@
    &&& forall|k: int| 0 <= k < s.len() ==> s[k] != '/'
}

/// `p` followed by the component `name`.
pub open spec fn child(p: PathModel, name: Seq<char>) -> PathModel {
    PathModel { absolute: p.absolute, parts: p.parts.push(name) }
}

/// The ancestor of `p` that lies `k` levels up; `p` itself for `k == 0`.
pub open spec fn ancestor(p: PathModel, k: int) -> PathModel {
    PathModel { absolute: p.absolute, parts: p.parts.take(p.parts.len() - k) }
}

/// The text of a path: `/` before an absolute path, components joined by `/`.
pub open spec fn path_text(p: PathModel) -> Seq<char> {
    if p.absolute {
        "/"@ + join_with(p.parts, "/"@)
    } else {
        join_with(p.parts, "/"@)
    }
}

proof fn lemma_part_len(s: Seq<char>, i: int, j: int)
    requires
        0 <= i <= j <= s.len(),
        forall|k: int| i <= k < j ==> s[k] != '/',
        j == s.len() || s[j] == '/',
    ensures
        i + part_len(s, i) == j,
    decreases j - i,
{
    if i < j {
        lemma_part_len(s, i + 1, j);
    }
}

/// A plain name parses as a relative path of that one component.
pub proof fn lemma_parse_plain_name(s: Seq<char>)
    requires
        is_plain_name(s),
    ensures
        parse_path(s) == (PathModel { absolute: false, parts: seq![s] }),
{
    lemma_part_len(s, 0, s.len() as int);
    assert(s.subrange(0, s.len() as int) =~= s);
    assert(parts_from(s, 0) =~= seq![s]);
}

/// A path to a file or directory.
#[derive(Debug)]
pub struct RepoPath {
    absolute: bool,
    parts: Vec<String>,
}

impl View for RepoPath {
    type V = PathModel;

    closed spec fn view(&self) -> PathModel {
        PathModel { absolute: self.absolute, parts: self.parts@.map_values(|p: String| p@) }
    }
}

/// The components of `s`, as `parts_from(s@, 0)` gives them.
fn split_parts(s: &str) -> (r: Vec<String>)
    ensures
        r@.map_values(|p: String| p@) == parts_from(s@, 0),
{
    let cs = chars_of(s);
    let n = cs.len();
    let mut r: Vec<String> = Vec::new();
    let mut i: usize = 0;
    while i < n
        invariant
            n == cs.len(),
            cs@ == s@,
            i <= n,
            parts_from(s@, 0) == r@.map_values(|p: String| p@) + parts_from(s@, i as int),
        decreases n - i,
    {
        let mut j: usize = i;
        while j < n && cs[j] != '/'
            invariant
                i <= j <= n == cs.len(),
                forall|k: int| i <= k < j ==> cs@[k] != '/',
            decreases n - j,
        {
            j = j + 1;
        }
        proof {
            lemma_part_len(s@, i as int, j as int);
        }
        let ghost before = r@.map_values(|p: String| p@);
        let ghost rest = if j < n {
            parts_from(s@, j + 1)
        } else {
            seq![]
        };
        let piece = s.substring_char(i, j);
        if j > i && !same_text(piece, ".") {
            r.push(String::from_str(piece));
            assert(r@.map_values(|p: String| p@) =~= before.push(piece@));
            assert(before + parts_from(s@, i as int) =~= r@.map_values(|p: String| p@) + rest);
        } else {
            assert(r@.map_values(|p: String| p@) =~= before);
        }
        if j < n {
            i = j + 1;
        } else {
            i = n;
            assert(parts_from(s@, n as int) =~= seq![]);
            assert(rest =~= parts_from(s@, n as int));
        }
    }
    assert(parts_from(s@, n as int) =~= seq![]);
    assert(parts_from(s@, 0) =~= r@.map_values(|p: String| p@));
    r
}

/// Whether `s` is a single component that names an entry in a directory:
/// not empty, free of `/`, and neither `.` nor `..`.
pub fn is_valid_env(s: &str) -> (r: bool)
    ensures
        r == is_plain_name(s@),
{
    let cs = chars_of(s);
    let mut k: usize = 0;
    while k < cs.len()
        invariant
            cs@ == s@,
            k <= cs.len(),
            forall|j: int| 0 <= j < k ==> cs@[j] != '/',
        decreases cs.len() - k,
    {
        if cs[k] == '/' {
            return false;
        }
        k = k + 1;
    }
    cs.len() > 0 && !same_text(s, ".") && !same_text(s, "..")
}

/// A copy of `v`, element by element.
fn copy_parts(v: &Vec<String>) -> (r: Vec<String>)
    ensures
        r@.map_values(|p: String| p@) == v@.map_values(|p: String| p@),
{
    let mut r: Vec<String> = Vec::new();
    for i in 0..v.len()
        invariant
            r@.map_values(|p: String| p@) == v@.take(i as int).map_values(|p: String| p@),
    {
        let ghost before = r@.map_values(|p: String| p@);
        let c = v[i].clone();
        r.push(c);
        assert(r@.map_values(|p: String| p@) =~= before.push(v@[i as int]@));
        assert(v@.take(i + 1).map_values(|p: String| p@) =~= v@.take(i as int).map_values(
            |p: String| p@,
        ).push(v@[i as int]@));
    }
    assert(v@.take(v.len() as int) =~= v@);
    r
}

impl RepoPath {
    /// The path that the text `s` denotes.
    pub fn new(s: &str) -> (r: RepoPath)
        ensures
            r@ == parse_path(s@),
    {
        let cs = chars_of(s);
        let absolute = cs.len() > 0 && cs[0] == '/';
        RepoPath { absolute, parts: split_parts(s) }
    }

    /// A copy of this path.
    pub fn duplicate(&self) -> (r: RepoPath)
        ensures
            r@ == self@,
    {
        RepoPath { absolute: self.absolute, parts: copy_parts(&self.parts) }
    }

    /// `name` taken relative to this path, as `Path::join` takes it: an
    /// absolute `name` replaces the path.
    pub fn join(&self, name: &str) -> (r: RepoPath)
        ensures
            r@ == join_path(self@, name@),
    {
        let q = RepoPath::new(name);
        if q.absolute {
            q
        } else {
            let mut parts = copy_parts(&self.parts);
            let ghost mine = parts@;
            let mut more = q.parts;
            parts.append(&mut more);
            assert(parts@.map_values(|p: String| p@) =~= mine.map_values(|p: String| p@)
                + q@.parts);
            RepoPath { absolute: self.absolute, parts }
        }
    }

    /// This path followed by the component `name`.
    pub fn child(&self, name: &str) -> (r: RepoPath)
        requires
            is_plain_name(name@),
        ensures
            r@ == child(self@, name@),
    {
        let mut parts = copy_parts(&self.parts);
        let ghost mine = parts@;
        parts.push(String::from_str(name));
        assert(parts@.map_values(|p: String| p@) =~= mine.map_values(|p: String| p@).push(name@));
        RepoPath { absolute: self.absolute, parts }
    }

    /// The text of this path.
    pub fn to_string(&self) -> (r: String)
        ensures
            r@ == path_text(self@),
    {
        let mut r = String::new();
        let ghost parts = self@.parts;
        for i in 0..self.parts.len()
            invariant
                parts == self@.parts,
                parts.len() == self.parts.len(),
                r@ == join_with(parts.take(i as int), "/"@),
        {
            let ghost before = r@;
            if i > 0 {
                r.append("/");
            }
            r.append(self.parts[i].as_str());
            proof {
                let t = parts.take(i + 1);
                assert(t.drop_last() =~= parts.take(i as int));
                assert(t.last() == parts[i as int]);
                if i == 0 {
                    assert(r@ =~= parts[0]);
                }
            }
        }
        assert(parts.take(parts.len() as int) =~= parts);
        if self.absolute {
            let mut a = String::from_str("/");
            a.append(r.as_str());
            a
        } else {
            r
        }
    }

    /// This path and each of its ancestors, nearest first, ending at the
    /// root for an absolute path.
    pub fn ancestors(&self) -> (r: Vec<RepoPath>)
        ensures
            r.len() == self@.parts.len() + 1,
            forall|k: int| 0 <= k < r.len() ==> (#[trigger] r[k])@ == ancestor(self@, k),
    {
        let mut r: Vec<RepoPath> = Vec::new();
        let mut parts = copy_parts(&self.parts);
        let n = self.parts.len();
        let mut k: usize = 0;
        while k < n
            invariant
                n == self@.parts.len(),
                k <= n,
                r.len() == k,
                parts.len() == n - k,
                parts@.map_values(|p: String| p@) == self@.parts.take(n - k),
                forall|j: int| 0 <= j < k ==> (#[trigger] r[j])@ == ancestor(self@, j),
            decreases n - k,
        {
            let here = copy_parts(&parts);
            r.push(RepoPath { absolute: self.absolute, parts: here });
            let ghost before = parts@;
            parts.pop();
            assert(parts@ =~= before.drop_last());
            assert(parts@.map_values(|p: String| p@) =~= before.map_values(
                |p: String| p@,
            ).drop_last());
            assert(self@.parts.take(n - k).drop_last() =~= self@.parts.take(n - k - 1));
            k = k + 1;
        }
        r.push(RepoPath { absolute: self.absolute, parts });
        r
    }
}

/// The marker directory of the repository rooted at `root`.
pub open spec fn marker_path(root: PathModel) -> PathModel {
    child(root, ".envm"@)
}

/// The configuration file of the repository rooted at `root`.
pub open spec fn config_path(root: PathModel) -> PathModel {
    child(marker_path(root), "config"@)
}

/// The head file, which records the environment in use.
pub open spec fn head_path(root: PathModel) -> PathModel {
    child(marker_path(root), "HEAD"@)
}

/// The backup of the local file, taken when leaving the local environment.
pub open spec fn backup_path(root: PathModel) -> PathModel {
    child(marker_path(root), ".env.backup"@)
}

/// The local environment file of `r`.
pub open spec fn local_path(r: RepoModel) -> PathModel {
    join_path(r.root, r.config.local)
}

/// The template environment file of `r`.
pub open spec fn template_path(r: RepoModel) -> PathModel {
    join_path(r.root, r.config.template)
}

/// The file of the environment named `name` in `r`.
pub open spec fn named_path(r: RepoModel, name: Seq<char>) -> PathModel {
    join_path(r.root, expand(r.config.pattern, name))
}

proof fn lemma_fixed_names()
    ensures
        is_plain_name(".envm"@),
        is_plain_name("config"@),
        is_plain_name("HEAD"@),
        is_plain_name(".env.backup"@),
{
    reveal_strlit(".");
    reveal_strlit("..");
    reveal_strlit(".envm");
    reveal_strlit("config");
    reveal_strlit("HEAD");
    reveal_strlit(".env.backup");
    assert(".envm"@ =~= seq!['.', 'e', 'n', 'v', 'm']);
    assert("config"@ =~= seq!['c', 'o', 'n', 'f', 'i', 'g']);
    assert("HEAD"@ =~= seq!['H', 'E', 'A', 'D']);
    assert(".env.backup"@ =~= seq!['.', 'e', 'n', 'v', '.', 'b', 'a', 'c', 'k', 'u', 'p']);
}

/// The marker directory under `path`.
pub fn get_envm_path(path: &RepoPath) -> (r: RepoPath)
    ensures
        r@ == marker_path(path@),
{
    proof {
        lemma_fixed_names();
    }
    path.child(".envm")
}

/// The configuration file of the repository rooted at `path`.
pub fn get_config_path(path: &RepoPath) -> (r: RepoPath)
    ensures
        r@ == config_path(path@),
{
    proof {
        lemma_fixed_names();
    }
    get_envm_path(path).child("config")
}

/// The head file of the repository rooted at `path`.
pub fn get_current_path(path: &RepoPath) -> (r: RepoPath)
    ensures
        r@ == head_path(path@),
{
    proof {
        lemma_fixed_names();
    }
    get_envm_path(path).child("HEAD")
}

/// The file of the environment named `env`; `InvalidEnvironmentName` where
/// `env` is not a single plain component, before any path is formed.
pub fn get_env_path(repo: &Repository, env: &str) -> (r: Result<RepoPath, EnvmError>)
    ensures
        is_plain_name(env@) ==> r is Ok && r->Ok_0@ == named_path(repo@, env@),
        !is_plain_name(env@) ==> r is Err && r->Err_0@ == ErrorModel::InvalidEnvironmentName(
            env@,
        ),
{
    if !is_valid_env(env) {
        return Err(EnvmError::InvalidEnvironmentName(String::from_str(env)));
    }
    let filename = repo.config().expand(env);
    Ok(repo.path().join(filename.as_str()))
}

/// The backup of the local file.
pub fn get_local_backup_path(repo: &Repository) -> (r: RepoPath)
    ensures
        r@ == backup_path(repo@.root),
{
    proof {
        lemma_fixed_names();
    }
    get_envm_path(repo.path()).child(".env.backup")
}

/// The local environment file.
pub fn get_local_env_path(repo: &Repository) -> (r: RepoPath)
    ensures
        r@ == local_path(repo@),
{
    repo.path().join(repo.config().local().as_str())
}

/// The template environment file.
pub fn get_template_env_path(repo: &Repository) -> (r: RepoPath)
    ensures
        r@ == template_path(repo@),
{
    repo.path().join(repo.config().template().as_str())
}

} // verus!
