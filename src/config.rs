//! The three naming conventions of a repository: the local file, the pattern
//! of named environment files, and the template file.
use vstd::prelude::*;
use vstd::string::StringExecFns;
use crate::error::{EnvmError, ErrorModel};
use crate::text::chars_of;

verus! {

/// The longest pattern a configuration accepts, in characters: the longest
/// path that common systems accept.
pub const MAX_PATTERN_LEN: usize = 4096;

/// The mathematical value of a configuration.
pub struct ConfigModel {
    pub local: Seq<char>,
    pub pattern: Seq<char>,
    pub template: Seq<char>,
}

/// Whether the placeholder `{}` starts at index `i` of `p`.
pub open spec fn placeholder_at(p: Seq<char>, i: int) -> bool {
    0 <= i && i + 1 < p.len() && p[i] == '{' && p[i + 1] == '}'
}

/// Whether `p` holds the placeholder exactly once.
pub open spec fn has_one_placeholder(p: Seq<char>) -> bool {
    exists|i: int|
        placeholder_at(p, i) && forall|j: int| #[trigger] placeholder_at(p, j) ==> j == i
}

/// Where the placeholder of `p` starts.
pub open spec fn placeholder_index(p: Seq<char>) -> int {
    choose|i: int| placeholder_at(p, i)
}

/// What `p` holds before its placeholder.
pub open spec fn pattern_prefix(p: Seq<char>) -> Seq<char> {
    p.take(placeholder_index(p))
}

/// What `p` holds after its placeholder.
pub open spec fn pattern_suffix(p: Seq<char>) -> Seq<char> {
    p.skip(placeholder_index(p) + 2)
}

/// `p` with its placeholder replaced by `name`.
pub open spec fn expand(p: Seq<char>, name: Seq<char>) -> Seq<char> {
    pattern_prefix(p) + name + pattern_suffix(p)
}

/// A usable configuration: its pattern holds the placeholder once and is
/// not too long.
pub open spec fn config_wf(c: ConfigModel) -> bool {
    has_one_placeholder(c.pattern) && c.pattern.len() <= MAX_PATTERN_LEN
}

/// The configuration a new repository starts with.
pub open spec fn default_config() -> ConfigModel {
    ConfigModel { local: ".env"@, pattern: ".env.{}"@, template: ".env.example"@ }
}

/// The naming conventions of a repository.
#[derive(Debug)]
pub struct Config {
    local: String,
    pattern: String,
    template: String,
}

impl View for Config {
    type V = ConfigModel;

    closed spec fn view(&self) -> ConfigModel {
        ConfigModel { local: self.local@, pattern: self.pattern@, template: self.template@ }
    }
}

/// The index of the first placeholder in `cs` at or after `from`;
/// `cs.len()` when there is none.
fn find_placeholder(cs: &Vec<char>, from: usize) -> (r: usize)
    requires
        from <= cs.len(),
    ensures
        from <= r <= cs.len(),
        r < cs.len() ==> placeholder_at(cs@, r as int),
        forall|j: int| from <= j < r ==> !placeholder_at(cs@, j),
        r == cs.len() ==> forall|j: int| from <= j ==> !placeholder_at(cs@, j),
{
    let n = cs.len();
    let mut i: usize = from;
    while i < n
        invariant
            n == cs.len(),
            from <= i <= n,
            forall|j: int| from <= j < i ==> !placeholder_at(cs@, j),
        decreases n - i,
    {
        if i + 1 < n && cs[i] == '{' && cs[i + 1] == '}' {
            return i;
        }
        i = i + 1;
    }
    n
}

impl Config {
    /// Every configuration is usable.
    #[verifier::type_invariant]
    pub open spec fn inv(self) -> bool {
        config_wf(self@)
    }

    /// The default configuration: `.env`, `.env.{}` and `.env.example`.
    pub fn new() -> (r: Config)
        ensures
            r@ == default_config(),
    {
        proof {
            reveal_strlit(".env.{}");
            let p = ".env.{}"@;
            assert(p =~= seq!['.', 'e', 'n', 'v', '.', '{', '}']);
            assert(placeholder_at(p, 5));
            assert forall|j: int| #[trigger] placeholder_at(p, j) implies j == 5 by {}
        }
        Config {
            local: String::from_str(".env"),
            pattern: String::from_str(".env.{}"),
            template: String::from_str(".env.example"),
        }
    }

    /// A configuration of the three names, provided the pattern holds the
    /// placeholder exactly once and is not too long; `FailedToParseConfig`
    /// otherwise.
    pub fn with_names(local: String, pattern: String, template: String) -> (r: Result<
        Config,
        EnvmError,
    >)
        ensures
            r is Ok <==> config_wf(ConfigModel { local: local@, pattern: pattern@, template: template@ }),
            r is Ok ==> r->Ok_0@ == (ConfigModel {
                local: local@,
                pattern: pattern@,
                template: template@,
            }),
            r is Err ==> r->Err_0@ == ErrorModel::FailedToParseConfig,
    {
        let cs = chars_of(pattern.as_str());
        if cs.len() > MAX_PATTERN_LEN {
            return Err(EnvmError::FailedToParseConfig);
        }
        let first = find_placeholder(&cs, 0);
        if first == cs.len() {
            return Err(EnvmError::FailedToParseConfig);
        }
        let second = find_placeholder(&cs, first + 1);
        if second < cs.len() {
            assert(!has_one_placeholder(pattern@)) by {
                if has_one_placeholder(pattern@) {
                    let i = choose|i: int|
                        placeholder_at(pattern@, i) && forall|j: int| #[trigger]
                            placeholder_at(pattern@, j) ==> j == i;
                    assert(first == i && second == i);
                }
            }
            return Err(EnvmError::FailedToParseConfig);
        }
        assert(forall|j: int| #[trigger] placeholder_at(pattern@, j) ==> j == first);
        Ok(Config { local, pattern, template })
    }

    /// The file name of the local environment.
    pub fn local(&self) -> (r: &String)
        ensures
            r@ == self@.local,
    {
        &self.local
    }

    /// The pattern of named environment files.
    pub fn pattern(&self) -> (r: &String)
        ensures
            r@ == self@.pattern,
    {
        &self.pattern
    }

    /// The file name of the template environment.
    pub fn template(&self) -> (r: &String)
        ensures
            r@ == self@.template,
    {
        &self.template
    }

    /// A copy of this configuration.
    pub fn duplicate(&self) -> (r: Config)
        ensures
            r@ == self@,
    {
        proof {
            use_type_invariant(self);
        }
        Config {
            local: self.local.clone(),
            pattern: self.pattern.clone(),
            template: self.template.clone(),
        }
    }

    /// The pattern with its placeholder replaced by `name`.
    pub fn expand(&self, name: &str) -> (r: String)
        ensures
            config_wf(self@),
            r@ == expand(self@.pattern, name@),
    {
        let (prefix, suffix) = self.pattern_parts();
        let mut r = String::from_str(prefix);
        r.append(name);
        r.append(suffix);
        r
    }

    /// What the pattern holds before and after its placeholder.
    pub fn pattern_parts(&self) -> (r: (&str, &str))
        ensures
            config_wf(self@),
            r.0@ == pattern_prefix(self@.pattern),
            r.1@ == pattern_suffix(self@.pattern),
    {
        proof {
            use_type_invariant(self);
        }
        let cs = chars_of(self.pattern.as_str());
        let i = find_placeholder(&cs, 0);
        assert(i == placeholder_index(self@.pattern));
        let s = self.pattern.as_str();
        (s.substring_char(0, i), s.substring_char(i + 2, cs.len()))
    }
}

} // verus!
