//! Java installations and the arguments that the game is launched with.

use vstd::prelude::*;
use crate::text::{nat_text, push_nat, str_chars, string_from_chars};

verus! {

/// The archive format that Java downloads are asked for in.
pub const PREFERRED_ARCHIVE: &'static str = "tar.gz";

/// The extension of the archives that Java downloads come in.
pub open spec fn archive_extension() -> Seq<char> {
    "."@ + PREFERRED_ARCHIVE@
}

/// The extension of the archives that Java downloads come in.
pub fn preferred_archive_extension() -> (r: String)
    ensures
        r@ == archive_extension(),
{
    let mut out = ".".to_owned();
    out.append(PREFERRED_ARCHIVE);
    out
}

/// Whether `pattern` stands in `s` at index `i`.
pub open spec fn occurs_at(s: Seq<char>, pattern: Seq<char>, i: int) -> bool {
    0 <= i && i + pattern.len() <= s.len() && s.subrange(i, i + pattern.len()) == pattern
}

/// The first index from `from` on at which `pattern` stands in `s`.
pub open spec fn first_occurrence(s: Seq<char>, pattern: Seq<char>, from: int) -> Option<int>
    decreases s.len() + 1 - from,
{
    if 0 <= from && from + pattern.len() <= s.len() {
        if occurs_at(s, pattern, from) {
            Some(from)
        } else {
            first_occurrence(s, pattern, from + 1)
        }
    } else {
        None
    }
}

/// The text `s` without the first occurrence of `pattern`, or `s` itself
/// where there is none.
pub open spec fn without_first(s: Seq<char>, pattern: Seq<char>) -> Seq<char> {
    match first_occurrence(s, pattern, 0) {
        Some(i) => s.subrange(0, i) + s.subrange(i + pattern.len(), s.len() as int),
        None => s,
    }
}

fn matches_at(s: &Vec<char>, pattern: &Vec<char>, i: usize) -> (r: bool)
    requires
        i + pattern.len() <= s.len(),
    ensures
        r == occurs_at(s@, pattern@, i as int),
{
    let ghost window = s@.subrange(i as int, i + pattern.len());
    let mut k: usize = 0;
    while k < pattern.len()
        invariant
            k <= pattern.len(),
            i + pattern.len() <= s.len(),
            window == s@.subrange(i as int, i + pattern.len()),
            forall|j: int| 0 <= j < k ==> window[j] == pattern@[j],
        decreases pattern.len() - k,
    {
        if s[i + k] != pattern[k] {
            assert(window[k as int] != pattern@[k as int]);
            return false;
        }
        k += 1;
    }
    assert(window =~= pattern@);
    true
}

/// Removes the first occurrence of `pattern` from `text`.
pub fn remove_first(text: &str, pattern: &str) -> (r: String)
    ensures
        r@ == without_first(text@, pattern@),
{
    let s = str_chars(text);
    let p = str_chars(pattern);
    if p.len() > s.len() {
        return text.to_owned();
    }
    let last = s.len() - p.len();
    let mut i: usize = 0;
    while i < last
        invariant
            i <= last,
            last + p.len() == s.len(),
            s@ == text@,
            p@ == pattern@,
            first_occurrence(s@, p@, 0) == first_occurrence(s@, p@, i as int),
        decreases last - i,
    {
        if matches_at(&s, &p, i) {
            return cut(&s, i, p.len());
        }
        i += 1;
    }
    if matches_at(&s, &p, last) {
        return cut(&s, last, p.len());
    }
    assert(first_occurrence(s@, p@, last + 1) is None);
    assert(first_occurrence(s@, p@, last as int) is None);
    text.to_owned()
}

/// The text without the `len` characters from index `at` on.
fn cut(s: &Vec<char>, at: usize, len: usize) -> (r: String)
    requires
        at + len <= s.len(),
    ensures
        r@ == s@.subrange(0, at as int) + s@.subrange(at + len, s.len() as int),
{
    let mut out = string_from_chars(s, 0, at);
    let rest = string_from_chars(s, at + len, s.len());
    out.append(rest.as_str());
    out
}

/// Gets the name of the extracted directory by removing the archive file
/// extension.
pub fn extract_dir_name(name: &str) -> (r: String)
    ensures
        r@ == without_first(name@, archive_extension()),
{
    let extension = preferred_archive_extension();
    remove_first(name, extension.as_str())
}

/// Format of the metadata with download info for a Java package.
#[derive(Debug, PartialEq, Eq)]
pub struct PackageFormat {
    pub name: String,
    pub download_url: String,
}

impl Clone for PackageFormat {
    fn clone(&self) -> (r: Self)
        ensures
            r == *self,
    {
        PackageFormat { name: self.name.clone(), download_url: self.download_url.clone() }
    }
}

/// The newest package of a list of packages, which lists the newest first.
pub fn get_latest(manifest: &Vec<PackageFormat>) -> (r: Option<PackageFormat>)
    ensures
        match r {
            Some(package) => manifest.len() > 0 && package == manifest[0],
            None => manifest.len() == 0,
        },
{
    if manifest.len() > 0 {
        Some(manifest[0].clone())
    } else {
        None
    }
}

/// An amount of memory.
#[derive(Debug, Clone, Copy, PartialEq, Eq, Structural)]
pub enum MemoryNum {
    B(u32),
    Kb(u32),
    Mb(u32),
    Gb(u32),
}

impl MemoryNum {
    /// The text that writes the amount for the Java virtual machine: the
    /// number and the letter of its unit.
    pub open spec fn text(self) -> Seq<char> {
        match self {
            MemoryNum::B(n) => nat_text(n as nat),
            MemoryNum::Kb(n) => nat_text(n as nat) + "k"@,
            MemoryNum::Mb(n) => nat_text(n as nat) + "m"@,
            MemoryNum::Gb(n) => nat_text(n as nat) + "g"@,
        }
    }

    /// Converts the amount to its text.
    pub fn to_string(&self) -> (r: String)
        ensures
            r@ == self.text(),
    {
        let mut out = String::new();
        match self {
            MemoryNum::B(n) => {
                push_nat(&mut out, *n as u64);
            },
            MemoryNum::Kb(n) => {
                push_nat(&mut out, *n as u64);
                out.append("k");
            },
            MemoryNum::Mb(n) => {
                push_nat(&mut out, *n as u64);
                out.append("m");
            },
            MemoryNum::Gb(n) => {
                push_nat(&mut out, *n as u64);
                out.append("g");
            },
        }
        assert(out@ =~= self.text());
        out
    }
}

/// An argument of the Java virtual machine that sets an amount of memory.
#[derive(Debug, Clone, Copy, PartialEq, Eq, Structural)]
pub enum MemoryArg {
    /// The memory that the machine starts with.
    Init,
    /// The most memory that the machine takes.
    Max,
}

impl MemoryArg {
    /// The argument that sets the amount `n`.
    pub open spec fn text(self, n: MemoryNum) -> Seq<char> {
        match self {
            MemoryArg::Init => "-Xms"@ + n.text(),
            MemoryArg::Max => "-Xmx"@ + n.text(),
        }
    }

    /// Converts the argument to its text.
    pub fn to_string(&self, n: MemoryNum) -> (r: String)
        ensures
            r@ == self.text(n),
    {
        let mut out = match self {
            MemoryArg::Init => "-Xms".to_owned(),
            MemoryArg::Max => "-Xmx".to_owned(),
        };
        out.append(n.to_string().as_str());
        out
    }
}

/// Where the Java installation of an instance comes from.
#[derive(Debug, PartialEq, Eq)]
pub enum JavaKind {
    Adoptium,
    Zulu,
    /// An installation at a path that the user gives.
    Custom(String),
}

/// Why an instance could not be launched.
#[derive(Debug, PartialEq, Eq)]
pub enum LaunchError {
    /// The instance could not be created.
    Create(String),
    /// Java is not installed.
    Java,
    /// The game process failed.
    Command(String),
    /// A file could not be evaluated.
    Json(String),
}

impl LaunchError {
    /// The message of the error.
    pub open spec fn message(self) -> Seq<char> {
        match self {
            LaunchError::Create(cause) => "Failed to create instance:\n"@ + cause@,
            LaunchError::Java => "Java is not installed"@,
            LaunchError::Command(cause) => "Game process failed:\n"@ + cause@,
            LaunchError::Json(cause) => "Failed to evaluate json file:\n"@ + cause@,
        }
    }

    /// The message of the error.
    pub fn to_string(&self) -> (r: String)
        ensures
            r@ == self.message(),
    {
        match self {
            LaunchError::Create(cause) => {
                let mut out = "Failed to create instance:\n".to_owned();
                out.append(cause.as_str());
                out
            },
            LaunchError::Java => "Java is not installed".to_owned(),
            LaunchError::Command(cause) => {
                let mut out = "Game process failed:\n".to_owned();
                out.append(cause.as_str());
                out
            },
            LaunchError::Json(cause) => {
                let mut out = "Failed to evaluate json file:\n".to_owned();
                out.append(cause.as_str());
                out
            },
        }
    }
}

/// How an instance is launched.
#[derive(Debug)]
pub struct LaunchOptions {
    pub java: JavaKind,
    pub jvm_args: Vec<String>,
    pub game_args: Vec<String>,
    pub init_mem: Option<MemoryNum>,
    pub max_mem: Option<MemoryNum>,
}

impl LaunchOptions {
    /// The arguments of the Java virtual machine: the configured ones, then
    /// the initial and the maximum memory where they are set.
    pub open spec fn jvm_args_view(&self) -> Seq<Seq<char>> {
        let init = match self.init_mem {
            Some(n) => seq![MemoryArg::Init.text(n)],
            None => Seq::empty(),
        };
        let max = match self.max_mem {
            Some(n) => seq![MemoryArg::Max.text(n)],
            None => Seq::empty(),
        };
        self.jvm_args.deep_view() + init + max
    }

    /// Create the arguments of the Java virtual machine.
    pub fn generate_jvm_args(&self) -> (r: Vec<String>)
        ensures
            r.deep_view() == self.jvm_args_view(),
    {
        let mut out = crate::text::clone_strings(&self.jvm_args);
        let ghost configured = out.deep_view();
        let ghost init_part = Seq::<Seq<char>>::empty();
        if let Some(n) = &self.init_mem {
            let ghost before = out;
            let arg = MemoryArg::Init.to_string(*n);
            out.push(arg);
            proof {
                crate::text::lemma_push_deep_view(before, out, arg);
                init_part = seq![MemoryArg::Init.text(*n)];
                assert(configured.push(arg@) =~= configured + init_part);
            }
        } else {
            assert(configured =~= configured + init_part);
        }
        if let Some(n) = &self.max_mem {
            let ghost before = out;
            let arg = MemoryArg::Max.to_string(*n);
            out.push(arg);
            proof {
                crate::text::lemma_push_deep_view(before, out, arg);
                assert((configured + init_part).push(arg@) =~= configured + init_part + seq![
                    MemoryArg::Max.text(*n),
                ]);
            }
        } else {
            assert(configured + init_part =~= configured + init_part + Seq::<Seq<char>>::empty());
        }
        out
    }
}

} // verus!
