//! Recognising the files of named environments among the names in a
//! directory, by matching them against the configured pattern.
use vstd::prelude::*;
use vstd::string::StringExecFns;
use crate::config::MAX_PATTERN_LEN;
use crate::text::chars_of;

verus! {

/// The characters that have a meaning of their own in a regular expression.
pub open spec fn is_meta(c: char) -> bool {
    c == '\\' || c == '.' || c == '+' || c == '*' || c == '?' || c == '(' || c == ')' || c
        == '|' || c == '[' || c == ']' || c == '{' || c == '}' || c == '^' || c == '$' || c
        == '#' || c == '&' || c == '-' || c == '~'
}

/// `s` as a regular expression that matches `s` literally: a backslash
/// before each meta character.
pub open spec fn escaped(s: Seq<char>) -> Seq<char>
    decreases s.len(),
{
    if s.len() == 0 {
        seq![]
    } else {
        let c = s.last();
        escaped(s.drop_last()) + if is_meta(c) {
            seq!['\\', c]
        } else {
            seq![c]
        }
    }
}

/// The expression that matches a whole file name made of `prefix`, any run
/// of characters captured as `env`, and `suffix`; the `s` flag lets `.`
/// match a line feed too.
pub open spec fn env_expr(prefix: Seq<char>, suffix: Seq<char>) -> Seq<char> {
    "(?s)^"@ + escaped(prefix) + "(?P<env>.*?)"@ + escaped(suffix) + "$"@
}

/// The name that the file `name` gives for the pattern `prefix{}suffix`:
/// what stands between the two.
pub open spec fn captured(prefix: Seq<char>, suffix: Seq<char>, name: Seq<char>) -> Option<
    Seq<char>,
> {
    if name.len() >= prefix.len() + suffix.len() && name.take(prefix.len() as int) == prefix
        && name.skip(name.len() - suffix.len()) == suffix {
        Some(name.subrange(prefix.len() as int, name.len() - suffix.len()))
    } else {
        None
    }
}

/// A file name pattern ready for matching: its literal parts, the regular
/// expression built from them, and that expression compiled. Only `new`
/// sets the fields, so `compiled` is always what `compile_expr` gave for
/// `expr`.
pub struct EnvNamePattern {
    prefix: String,
    suffix: String,
    expr: String,
    compiled: Option<regex::Regex>,
}

impl EnvNamePattern {
    /// The expression is the one built from the two parts, which together
    /// are no longer than a configuration pattern may be.
    #[verifier::type_invariant]
    spec fn inv(self) -> bool {
        &&& self.expr@ == env_expr(self.prefix@, self.suffix@)
        &&& self.prefix@.len() + self.suffix@.len() <= MAX_PATTERN_LEN
    }

    /// The text before the placeholder.
    pub closed spec fn prefix(self) -> Seq<char> {
        self.prefix@
    }

    /// The text after the placeholder.
    pub closed spec fn suffix(self) -> Seq<char> {
        self.suffix@
    }

    /// The pattern `prefix{}suffix`.
    pub fn new(prefix: &str, suffix: &str) -> (r: EnvNamePattern)
        requires
            prefix@.len() + suffix@.len() <= MAX_PATTERN_LEN,
        ensures
            r.prefix() == prefix@,
            r.suffix() == suffix@,
    {
        let mut expr = String::from_str("(?s)^");
        expr.append(escape_meta(prefix).as_str());
        expr.append("(?P<env>.*?)");
        expr.append(escape_meta(suffix).as_str());
        expr.append("$");
        let compiled = compile_expr(expr.as_str());
        EnvNamePattern {
            prefix: String::from_str(prefix),
            suffix: String::from_str(suffix),
            expr,
            compiled,
        }
    }

    /// The environment name that the file `name` gives, if it matches.
    pub fn capture(&self, name: &str) -> (r: Option<String>)
        ensures
            match r {
                Some(n) => captured(self.prefix(), self.suffix(), name@) == Some(n@),
                None => captured(self.prefix(), self.suffix(), name@) is None,
            },
    {
        capture_env(self, name)
    }
}

/// `s` with a backslash before each meta character.
pub fn escape_meta(s: &str) -> (r: String)
    ensures
        r@ == escaped(s@),
{
    let cs = chars_of(s);
    let mut r = String::new();
    for i in 0..cs.len()
        invariant
            cs@ == s@,
            r@ == escaped(s@.take(i as int)),
    {
        let c = cs[i];
        assert(s@.take(i + 1).drop_last() =~= s@.take(i as int));
        assert(s@.take(i + 1).last() == c);
        let one = s.substring_char(i, i + 1);
        assert(one@ =~= seq![c]);
        if c == '\\' || c == '.' || c == '+' || c == '*' || c == '?' || c == '(' || c == ')' || c
            == '|' || c == '[' || c == ']' || c == '{' || c == '}' || c == '^' || c == '$' || c
            == '#' || c == '&' || c == '-' || c == '~' {
            proof {
                reveal_strlit("\\");
            }
            r.append("\\");
        }
        r.append(one);
        assert(r@ =~= escaped(s@.take(i + 1)));
    }
    assert(s@.take(cs.len() as int) =~= s@);
    r
}

/// Relies on `regex::Regex::new`: the compiled expression, or `None` where
/// it does not compile.
#[verifier::external_body]
fn compile_expr(expr: &str) -> (r: Option<regex::Regex>) {
    regex::Regex::new(expr).ok()
}

/// Relies on `regex::Regex::captures` (with `Captures::name`), applied to
/// what `regex::Regex::new` compiled from the pattern's expression. By the
/// type invariant of `EnvNamePattern`, that expression is `(?s)^`, the
/// prefix with each meta character escaped (which the crate's syntax reads
/// as that character), the group `(?P<env>.*?)`, the suffix escaped the same
/// way, and `$`. With at most a few thousand literal characters it compiles
/// well within the crate's default size limit. Anchored at both ends, with
/// `.` matching every character under the `s` flag, it matches exactly the
/// names made of the prefix, any run of characters, and the suffix; the
/// group then holds that run.
#[verifier::external_body]
fn capture_env(pattern: &EnvNamePattern, name: &str) -> (r: Option<String>)
    ensures
        match r {
            Some(n) => captured(pattern.prefix(), pattern.suffix(), name@) == Some(n@),
            None => captured(pattern.prefix(), pattern.suffix(), name@) is None,
        },
{
    let re = pattern.compiled.as_ref()?;
    re.captures(name).and_then(|c| c.name("env")).map(|m| m.as_str().to_string())
}

/// A compiled regular expression of the `regex` crate.
#[verifier::external_type_specification]
#[verifier::external_body]
pub struct ExRegex(regex::Regex);

} // verus!
