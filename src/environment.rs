//! Which environment is mirrored into the local file: the distinguished
//! local one, or a named one.
use vstd::prelude::*;
use vstd::string::StringExecFns;
use crate::text::{is_space, lemma_trim_idempotent, same_text, trim, trim_end, trim_start, trim_str};

verus! {

/// The mathematical value of an environment state.
pub enum EnvState {
    Local,
    Named(Seq<char>),
}

impl EnvState {
    /// A named state holds a trimmed name other than the reserved `local`.
    pub open spec fn wf(self) -> bool {
        match self {
            EnvState::Local => true,
            EnvState::Named(n) => trim(n) == n && n != "local"@,
        }
    }
}

/// The state that the persisted token `s` stands for.
pub open spec fn parse_env(s: Seq<char>) -> EnvState {
    if trim(s) == "local"@ {
        EnvState::Local
    } else {
        EnvState::Named(trim(s))
    }
}

/// The token persisted for state `e`.
pub open spec fn serialize_env(e: EnvState) -> Seq<char> {
    match e {
        EnvState::Local => "local"@,
        EnvState::Named(n) => n,
    }
}

/// The environment in use: `Local`, or another one by name.
#[derive(Debug)]
pub enum EnvType {
    Local,
    Other(String),
}

impl View for EnvType {
    type V = EnvState;

    open spec fn view(&self) -> EnvState {
        match self {
            EnvType::Local => EnvState::Local,
            EnvType::Other(n) => EnvState::Named(n@),
        }
    }
}

impl EnvType {
    /// The state named by `contents`, trimmed: `local` is the local state,
    /// any other text a named one.
    pub fn from(contents: &str) -> (r: EnvType)
        ensures
            r@ == parse_env(contents@),
            r@.wf(),
    {
        proof {
            lemma_trim_idempotent(contents@);
        }
        let contents = trim_str(contents);
        if same_text(contents, "local") {
            EnvType::Local
        } else {
            EnvType::Other(String::from_str(contents))
        }
    }

    /// The token that stands for this state.
    pub fn to_string(&self) -> (r: &str)
        ensures
            r@ == serialize_env(self@),
    {
        match self {
            EnvType::Local => "local",
            EnvType::Other(value) => value.as_str(),
        }
    }

    /// Whether both values denote the same state.
    pub fn is_equal(&self, target: &EnvType) -> (r: bool)
        ensures
            r == (self@ == target@),
    {
        match target {
            EnvType::Local => match self {
                EnvType::Local => true,
                EnvType::Other(_) => false,
            },
            EnvType::Other(target_str) => match self {
                EnvType::Local => false,
                EnvType::Other(self_str) => same_text(self_str.as_str(), target_str.as_str()),
            },
        }
    }
}

/// Every token reads as a well-formed state.
pub proof fn lemma_parse_env_wf(s: Seq<char>)
    ensures
        parse_env(s).wf(),
{
    lemma_trim_idempotent(s);
}

/// The token `local` reads as the local state.
pub proof fn lemma_parse_local()
    ensures
        parse_env("local"@) == EnvState::Local,
{
    lemma_env_round_trip(EnvState::Local);
}

/// Reading back the token of a well-formed state gives that state.
pub proof fn lemma_env_round_trip(s: EnvState)
    requires
        s.wf(),
    ensures
        parse_env(serialize_env(s)) == s,
{
    match s {
        EnvState::Local => {
            reveal_strlit("local");
            let l = "local"@;
            assert(!is_space(l[0]));
            assert(trim_start(l) == l);
            assert(!is_space(l.last()));
            assert(trim_end(l) == l);
        },
        EnvState::Named(n) => {},
    }
}

} // verus!
