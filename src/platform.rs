use vstd::prelude::*;

verus! {

/// Runtime platform capabilities relevant to the game.
#[derive(Debug, Clone, Copy, PartialEq, Eq, Structural)]
pub struct Platform {
    is_wsl: bool,
}

impl Platform {
    pub closed spec fn wsl(self) -> bool {
        self.is_wsl
    }

    /// Builds the platform description from the kernel version text, if it could be read.
    pub fn from_kernel_version(version: Option<&str>) -> (r: Platform)
        ensures
            r.wsl() == (version.is_some() && mentions_microsoft(version.unwrap()@)),
    {
        match version {
            Some(text) => Platform { is_wsl: contains_microsoft(text) },
            None => Platform { is_wsl: false },
        }
    }

    /// Returns true when running under Windows Subsystem for Linux.
    pub fn is_wsl(self) -> (r: bool)
        ensures
            r == self.wsl(),
    {
        self.is_wsl
    }
}

/// Whether `needle` occurs in `hay` as a contiguous run.
pub open spec fn occurs_in(hay: Seq<char>, needle: Seq<char>) -> bool {
    exists|i: int| 0 <= i && i + needle.len() <= hay.len() && #[trigger] hay.subrange(i, i + needle.len()) == needle
}

/// Whether `text`, ASCII lower-cased, contains "microsoft".
pub open spec fn mentions_microsoft(text: Seq<char>) -> bool {
    occurs_in(crate::config::ascii_lower_seq(text), "microsoft"@)
}

/// Relies on str::to_ascii_lowercase: each ASCII capital letter mapped to its small letter.
#[verifier::external_body]
fn to_ascii_lowercase(s: &str) -> (r: String)
    ensures
        r@ == crate::config::ascii_lower_seq(s@),
{
    s.to_ascii_lowercase()
}

/// Relies on str::contains with a string pattern: true when `needle` occurs in `hay`.
#[verifier::external_body]
fn str_contains(hay: &str, needle: &str) -> (r: bool)
    ensures
        r == occurs_in(hay@, needle@),
{
    hay.contains(needle)
}

/// Whether the kernel version text names Microsoft, in any ASCII case.
pub fn contains_microsoft(text: &str) -> (r: bool)
    ensures
        r == mentions_microsoft(text@),
{
    let lower = to_ascii_lowercase(text);
    proof {
        reveal_strlit("microsoft");
    }
    str_contains(lower.as_str(), "microsoft")
}

} // verus!
