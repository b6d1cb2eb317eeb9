//! Path text as a build handles it: which characters separate components on a
//! platform, which paths stand for themselves, and how a relative path is
//! placed under a directory.

use vstd::prelude::*;
use vstd::string::*;

verus! {

/// The platform a build runs on.
#[derive(Clone, Copy, Debug, PartialEq, Eq, Structural)]
pub enum Platform {
    Windows,
    Unix,
}

impl Platform {
    /// The character written between a directory and what is placed under it.
    pub open spec fn separator(self) -> char {
        match self {
            Platform::Windows => '\\',
            Platform::Unix => '/',
        }
    }

    /// Whether `c` ends one path component and starts the next.
    pub open spec fn separates(self, c: char) -> bool {
        c == '/' || (self == Platform::Windows && c == '\\')
    }

    /// Executable form of [`Platform::separates`].
    pub fn is_separator(self, c: char) -> (yes: bool)
        ensures
            yes == self.separates(c),
    {
        match self {
            Platform::Windows => c == '/' || c == '\\',
            Platform::Unix => c == '/',
        }
    }

    /// The separator as text, ready to be appended.
    pub fn separator_text(self) -> (text: &'static str)
        ensures
            text@ == seq![self.separator()],
    {
        proof {
            reveal_strlit("\\");
            reveal_strlit("/");
        }
        match self {
            Platform::Windows => "\\",
            Platform::Unix => "/",
        }
    }
}

/// Whether `c` is one of the letters that name a drive.
pub open spec fn drive_letter(c: char) -> bool {
    ('a' <= c && c <= 'z') || ('A' <= c && c <= 'Z')
}

/// Whether `path` names a place without the help of a directory to start
/// from: it begins with a separator, or on Windows with a drive letter and a
/// colon.
pub open spec fn anchored(platform: Platform, path: Seq<char>) -> bool {
    ||| path.len() >= 1 && platform.separates(path[0])
    ||| platform == Platform::Windows && path.len() >= 2 && drive_letter(path[0]) && path[1] == ':'
}

/// `rel` placed under the directory `base`.
///
/// An anchored `rel` stands for itself. Otherwise `rel` follows `base`, with
/// the platform's separator between them unless `base` is empty or already
/// ends in a separator.
pub open spec fn joined(platform: Platform, base: Seq<char>, rel: Seq<char>) -> Seq<char> {
    if anchored(platform, rel) {
        rel
    } else if base.len() == 0 || platform.separates(base.last()) {
        base + rel
    } else {
        base + seq![platform.separator()] + rel
    }
}

/// A path placed under an anchored directory is anchored, and so is an
/// anchored path wherever it is placed: what [`joined`] gives then names the
/// same place from every working directory.
pub proof fn lemma_joined_is_anchored(platform: Platform, base: Seq<char>, rel: Seq<char>)
    requires
        anchored(platform, base) || anchored(platform, rel),
    ensures
        anchored(platform, joined(platform, base, rel)),
{
    if !anchored(platform, rel) {
        // `base` is anchored by its first characters, which the result keeps.
        assert(joined(platform, base, rel)[0] == base[0]);
    }
}

/// Executable form of [`anchored`].
pub fn is_anchored(platform: Platform, path: &str) -> (yes: bool)
    ensures
        yes == anchored(platform, path@),
{
    let len = path.unicode_len();
    if len >= 1 && platform.is_separator(path.get_char(0)) {
        return true;
    }
    match platform {
        Platform::Unix => false,
        Platform::Windows => {
            if len >= 2 {
                let first = path.get_char(0);
                let second = path.get_char(1);
                let letter = ('a' <= first && first <= 'z') || ('A' <= first && first <= 'Z');
                letter && second == ':'
            } else {
                false
            }
        },
    }
}

/// Places `rel` under the directory `base`, as [`joined`] says.
pub fn join(platform: Platform, base: &str, rel: &str) -> (path: String)
    ensures
        path@ == joined(platform, base@, rel@),
{
    if is_anchored(platform, rel) {
        return String::from_str(rel);
    }
    let len = base.unicode_len();
    let mut path = String::from_str(base);
    if len > 0 && !platform.is_separator(base.get_char(len - 1)) {
        path.append(platform.separator_text());
    }
    path.append(rel);
    path
}

} // verus!
