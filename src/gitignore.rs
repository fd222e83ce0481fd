//! The section of a `.gitignore` file that keeps environment files out of
//! version control.
use vstd::prelude::*;
use vstd::string::StringExecFns;
use crate::config::{Config, expand};
use crate::path::RepoPath;
use crate::text::{join_with, lines, same_text, split_lines, trim, trim_str};

verus! {

/// The lines of `content` that do not hold `pattern`, both sides trimmed.
pub open spec fn kept_lines(content: Seq<char>, pattern: Seq<char>) -> Seq<Seq<char>> {
    lines(content).filter(|l: Seq<char>| trim(l) != trim(pattern))
}

/// `content` without the lines that hold `pattern`, its lines joined by line
/// feeds and ended by one unless nothing is left.
pub open spec fn without_pattern(content: Seq<char>, pattern: Seq<char>) -> Seq<char> {
    let j = join_with(kept_lines(content, pattern), "\n"@);
    if j.len() > 0 && j.last() != '\n' {
        j.push('\n')
    } else {
        j
    }
}

/// `content` without the lines that hold any of `patterns`, removed one
/// pattern after another.
pub open spec fn without_patterns(content: Seq<char>, patterns: Seq<Seq<char>>) -> Seq<char>
    decreases patterns.len(),
{
    if patterns.len() == 0 {
        content
    } else {
        without_pattern(without_patterns(content, patterns.drop_last()), patterns.last())
    }
}

/// Each pattern on a line of its own.
pub open spec fn pattern_block(patterns: Seq<Seq<char>>) -> Seq<char>
    decreases patterns.len(),
{
    if patterns.len() == 0 {
        seq![]
    } else {
        pattern_block(patterns.drop_last()) + patterns.last() + "\n"@
    }
}

/// `content` with the patterns moved into a section headed `# section` at
/// the end, set off by an empty line where anything stands before it.
pub open spec fn with_section(content: Seq<char>, section: Seq<char>, patterns: Seq<Seq<char>>) -> Seq<
    char,
> {
    let base = without_patterns(content, patterns);
    let spaced = if base.len() > 0 {
        base + "\n"@
    } else {
        base
    };
    spaced + "# "@ + section + "\n"@ + pattern_block(patterns)
}

/// The patterns that keep the files of a repository with configuration `c`
/// out of version control, the template excepted.
pub open spec fn envm_patterns_of(c: crate::config::ConfigModel) -> Seq<Seq<char>> {
    seq![".envm"@, c.local, expand(c.pattern, "*"@), "!"@ + c.template]
}

/// A `.gitignore` file: where it lives and what it holds.
#[derive(Debug)]
pub struct Gitignore {
    path: RepoPath,
    content: String,
}

impl Gitignore {
    /// The file at `path` holding `content`; an absent file holds nothing.
    pub fn new(path: RepoPath, content: String) -> (r: Gitignore)
        ensures
            r.path()@ == path@,
            r.content()@ == content@,
    {
        Gitignore { path, content }
    }

    /// Where the file lives.
    pub closed spec fn path(&self) -> RepoPath {
        self.path
    }

    /// What the file holds.
    pub closed spec fn content(&self) -> String {
        self.content
    }

    /// Where the file lives.
    pub fn location(&self) -> (r: &RepoPath)
        ensures
            r@ == self.path()@,
    {
        &self.path
    }

    /// What the file holds.
    pub fn text(&self) -> (r: &String)
        ensures
            r@ == self.content()@,
    {
        &self.content
    }

    /// Drops the lines that hold `pattern`, comparing trimmed lines.
    pub fn remove_pattern(&mut self, pattern: &str) -> (r: &mut Self)
        ensures
            r.content()@ == without_pattern(old(self).content()@, pattern@),
            r.path()@ == old(self).path()@,
            *final(self) == *final(r),
    {
        let p = trim_str(pattern);
        let ls = split_lines(self.content.as_str());
        let ghost all = ls@.map_values(|l: &str| l@);
        let ghost pred = |l: Seq<char>| trim(l) != trim(pattern@);
        let mut out = String::new();
        let mut first = true;
        assert(all.take(0) =~= Seq::<Seq<char>>::empty());
        proof {
            reveal(Seq::filter);
        }
        for i in 0..ls.len()
            invariant
                all == ls@.map_values(|l: &str| l@),
                all == lines(old(self).content()@),
                p@ == trim(pattern@),
                pred == (|l: Seq<char>| trim(l) != trim(pattern@)),
                first == (all.take(i as int).filter(pred).len() == 0),
                out@ == join_with(all.take(i as int).filter(pred), "\n"@),
        {
            let ghost before = all.take(i as int).filter(pred);
            assert(all.take(i + 1).drop_last() =~= all.take(i as int));
            assert(all.take(i + 1).last() == ls@[i as int]@);
            reveal(Seq::filter);
            let line = ls[i];
            if !same_text(trim_str(line), p) {
                assert(all.take(i + 1).filter(pred) == before.push(line@));
                assert(before.push(line@).drop_last() =~= before);
                if !first {
                    out.append("\n");
                }
                out.append(line);
                first = false;
                proof {
                    if before.len() == 0 {
                        assert(out@ =~= line@);
                    }
                }
            } else {
                assert(all.take(i + 1).filter(pred) == before);
            }
        }
        assert(all.take(ls.len() as int) =~= all);
        let n = out.as_str().unicode_len();
        if n > 0 && out.as_str().get_char(n - 1) != '\n' {
            out.append("\n");
            proof {
                reveal_strlit("\n");
            }
        }
        self.content = out;
        self
    }

    /// Moves the patterns into a section headed `# section` at the end of
    /// the file: each is first removed wherever it stands, then the section
    /// lists them in order.
    pub fn ignore_patterns_section(&mut self, section: &str, patterns: Vec<String>) -> (r:
        &mut Self)
        ensures
            r.content()@ == with_section(
                old(self).content()@,
                section@,
                patterns@.map_values(|p: String| p@),
            ),
            r.path()@ == old(self).path()@,
            *final(self) == *final(r),
    {
        let ghost ps = patterns@.map_values(|p: String| p@);
        for i in 0..patterns.len()
            invariant
                ps == patterns@.map_values(|p: String| p@),
                self.path()@ == old(self).path()@,
                self.content()@ == without_patterns(old(self).content()@, ps.take(i as int)),
        {
            assert(ps.take(i + 1).drop_last() =~= ps.take(i as int));
            self.remove_pattern(patterns[i].as_str());
        }
        assert(ps.take(patterns.len() as int) =~= ps);
        if !self.content.as_str().is_empty() {
            self.content.append("\n");
        }
        self.content.append("# ");
        self.content.append(section);
        self.content.append("\n");
        let ghost head = self.content@;
        for i in 0..patterns.len()
            invariant
                ps == patterns@.map_values(|p: String| p@),
                self.path()@ == old(self).path()@,
                self.content()@ == head + pattern_block(ps.take(i as int)),
        {
            assert(ps.take(i + 1).drop_last() =~= ps.take(i as int));
            self.content.append(patterns[i].as_str());
            self.content.append("\n");
        }
        assert(ps.take(patterns.len() as int) =~= ps);
        assert(pattern_block(Seq::<Seq<char>>::empty()) =~= Seq::<char>::empty());
        self
    }
}

/// The patterns that keep the files of a repository with configuration
/// `config` out of version control: the marker directory, the local file,
/// every file the naming pattern describes, and an exception for the
/// template.
pub fn envm_patterns(config: &Config) -> (r: Vec<String>)
    ensures
        r@.map_values(|p: String| p@) == envm_patterns_of(config@),
{
    let mut template = String::from_str("!");
    template.append(config.template().as_str());
    let mut r: Vec<String> = Vec::new();
    r.push(String::from_str(".envm"));
    r.push(config.local().clone());
    r.push(config.expand("*"));
    r.push(template);
    assert(r@.map_values(|p: String| p@) =~= envm_patterns_of(config@));
    r
}

} // verus!
