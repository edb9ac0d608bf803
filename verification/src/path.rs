//! Paths as text.
//!
//! A path is a string whose components are divided by separators. Which
//! characters separate depends on the platform: `/` everywhere, and `\` as
//! well on Windows, where it is also the one written when two parts are
//! joined.

use vstd::prelude::*;
use crate::text::option_text;

verus! {

/// The family of operating systems the host runs on.
#[derive(Clone, Copy, Debug, PartialEq, Eq, Structural)]
pub enum Platform {
    Windows,
    Unix,
}

impl Platform {
    /// The separator written between two joined parts.
    pub open spec fn separator(self) -> char {
        match self {
            Platform::Windows => '\\',
            Platform::Unix => '/',
        }
    }

    /// Whether `c` divides components of a path.
    pub open spec fn separates(self, c: char) -> bool {
        c == '/' || (self == Platform::Windows && c == '\\')
    }

    /// Whether `c` divides components of a path.
    pub fn is_separator(self, c: char) -> (res: bool)
        ensures
            res == self.separates(c),
    {
        match self {
            Platform::Windows => c == '/' || c == '\\',
            Platform::Unix => c == '/',
        }
    }

    fn separator_text(self) -> (res: &'static str)
        ensures
            res@ == seq![self.separator()],
    {
        proof {
            reveal_strlit("\\");
            reveal_strlit("/");
        }
        let res = match self {
            Platform::Windows => "\\",
            Platform::Unix => "/",
        };
        res
    }
}

/// `name` placed below `base`: the two divided by one separator, unless
/// `base` is empty or already ends in one. `name` is taken as a name
/// relative to `base` whatever it begins with.
pub open spec fn joined(platform: Platform, base: Seq<char>, name: Seq<char>) -> Seq<char> {
    if base.len() == 0 {
        name
    } else if platform.separates(base.last()) {
        base + name
    } else {
        base.push(platform.separator()) + name
    }
}

/// The length of the first `n` characters of `path` once the separators at
/// their end are taken off.
pub open spec fn trimmed_len(platform: Platform, path: Seq<char>, n: nat) -> nat
    decreases n,
{
    if 0 < n <= path.len() && platform.separates(path[n - 1]) {
        trimmed_len(platform, path, (n - 1) as nat)
    } else {
        n
    }
}

/// Where, within the first `n` characters of `path`, the last component
/// begins: just behind the last separator, or at 0 where there is none.
pub open spec fn name_start(platform: Platform, path: Seq<char>, n: nat) -> nat
    decreases n,
{
    if 0 < n <= path.len() && !platform.separates(path[n - 1]) {
        name_start(platform, path, (n - 1) as nat)
    } else {
        n
    }
}

/// The directory that holds the last component of `path`, trailing
/// separators of either left aside. The parent of a single name is the
/// empty path; the parent of a component directly below the root is the
/// root as written. The empty path has no parent, nor has a path made of
/// separators alone.
pub open spec fn parent_of(platform: Platform, path: Seq<char>) -> Option<Seq<char>> {
    let end = trimmed_len(platform, path, path.len());
    let start = name_start(platform, path, end);
    let dir = trimmed_len(platform, path, start);
    if end == 0 {
        None
    } else if dir == 0 {
        Some(path.take(start as int))
    } else {
        Some(path.take(dir as int))
    }
}

/// The parent of `path`, or `path` itself where it has none.
pub open spec fn parent_or_self(platform: Platform, path: Seq<char>) -> Seq<char> {
    match parent_of(platform, path) {
        Some(dir) => dir,
        None => path,
    }
}

/// Places `name` below `base`.
pub fn join(platform: Platform, base: &str, name: &str) -> (res: String)
    ensures
        res@ == joined(platform, base@, name@),
{
    let n = base.unicode_len();
    let mut res = String::from_str(base);
    if n > 0 && !platform.is_separator(base.get_char(n - 1)) {
        res.append(platform.separator_text());
    }
    res.append(name);
    res
}

fn scan_separators(platform: Platform, path: &str, n: usize) -> (res: usize)
    requires
        n <= path@.len(),
    ensures
        res == trimmed_len(platform, path@, n as nat),
        res <= n,
{
    let mut end = n;
    while end > 0 && platform.is_separator(path.get_char(end - 1))
        invariant
            end <= n <= path@.len(),
            trimmed_len(platform, path@, end as nat) == trimmed_len(platform, path@, n as nat),
        decreases end,
    {
        end = end - 1;
    }
    end
}

fn scan_name(platform: Platform, path: &str, n: usize) -> (res: usize)
    requires
        n <= path@.len(),
    ensures
        res == name_start(platform, path@, n as nat),
        res <= n,
{
    let mut start = n;
    while start > 0 && !platform.is_separator(path.get_char(start - 1))
        invariant
            start <= n <= path@.len(),
            name_start(platform, path@, start as nat) == name_start(platform, path@, n as nat),
        decreases start,
    {
        start = start - 1;
    }
    start
}

/// The directory that holds the last component of `path`, if it has one.
pub fn parent(platform: Platform, path: &str) -> (res: Option<String>)
    ensures
        option_text(res) == parent_of(platform, path@),
{
    let n = path.unicode_len();
    let end = scan_separators(platform, path, n);
    let start = scan_name(platform, path, end);
    let dir = scan_separators(platform, path, start);
    if end == 0 {
        None
    } else if dir == 0 {
        Some(path.substring_char(0, start).to_owned())
    } else {
        Some(path.substring_char(0, dir).to_owned())
    }
}

/// The parent of `path`, or `path` itself where it has none.
pub fn parent_or_same(platform: Platform, path: &str) -> (res: String)
    ensures
        res@ == parent_or_self(platform, path@),
{
    match parent(platform, path) {
        Some(dir) => dir,
        None => String::from_str(path),
    }
}

} // verus!
