//! Candidate processes: which windows belong to the game, what is recorded
//! for each process, and one record per process.

use vstd::prelude::*;
use vstd::string::*;

use crate::version::{build_to_version_name, spec_build_from_version_ls, version_name, build_from_version_ls};

verus! {

/// A running candidate process.
#[derive(Debug)]
pub struct WowProcess {
    pub pid: u32,
    pub hwnd: isize,
    /// Detected build, 0 when undetermined.
    pub build: u32,
    pub version_name: String,
    pub exe_path: String,
}

/// Lower-case form of a string as `str::to_lowercase` gives it.
pub uninterp spec fn lowercase_of(s: Seq<char>) -> Seq<char>;

/// Relies on `str::to_lowercase`: the result depends on the characters alone.
#[verifier::external_body]
fn to_lowercase(s: &str) -> (r: String)
    ensures
        r@ == lowercase_of(s@),
{
    s.to_lowercase()
}

/// `s` begins with `prefix`.
pub open spec fn starts_with(s: Seq<char>, prefix: Seq<char>) -> bool {
    prefix.len() <= s.len() && s.subrange(0, prefix.len() as int) == prefix
}

/// Whether `s` begins with `prefix`.
pub fn text_starts_with(s: &str, prefix: &str) -> (r: bool)
    ensures
        r == starts_with(s@, prefix@),
{
    let n = prefix.unicode_len();
    if n > s.unicode_len() {
        return false;
    }
    let mut i: usize = 0;
    while i < n
        invariant
            n == prefix@.len(),
            n <= s@.len(),
            i <= n,
            forall|j: int| 0 <= j < i ==> s@[j] == prefix@[j],
        decreases n - i,
    {
        if s.get_char(i) != prefix.get_char(i) {
            proof {
                assert(s@.subrange(0, n as int)[i as int] != prefix@[i as int]);
            }
            return false;
        }
        i = i + 1;
    }
    proof {
        assert(s@.subrange(0, n as int) =~= prefix@);
    }
    true
}

/// A lower-cased window title names the game.
pub open spec fn is_game_title(lower: Seq<char>) -> bool {
    starts_with(lower, "world of warcraft"@)
}

/// A window class of the game's renderer.
pub open spec fn is_game_class(class: Seq<char>) -> bool {
    starts_with(class, "GxWindow"@)
}

/// Whether an already lower-cased title names the game.
pub fn lowered_title_matches(lower: &str) -> (r: bool)
    ensures
        r == is_game_title(lower@),
{
    text_starts_with(lower, "world of warcraft")
}

/// A window belongs to the game when its title, ignoring case, starts with
/// "World of Warcraft" or its class starts with "GxWindow".
pub fn is_game_window(title: &str, class: &str) -> (r: bool)
    ensures
        r == (is_game_title(lowercase_of(title@)) || is_game_class(class@)),
{
    let lower = to_lowercase(title);
    let by_title = lowered_title_matches(lower.as_str());
    let by_class = text_starts_with(class, "GxWindow");
    by_title || by_class
}

/// The build recorded for a process whose image path is `exe_path` and
/// whose version word, when it could be read, is `version_ls`.
pub open spec fn recorded_build(exe_path: Seq<char>, version_ls: Option<u32>) -> u32 {
    if exe_path.len() == 0 {
        0
    } else {
        match version_ls {
            Some(ls) => spec_build_from_version_ls(ls),
            None => 0,
        }
    }
}

impl WowProcess {
    /// The record of a process that could not be opened.
    pub fn access_denied(pid: u32, hwnd: isize) -> (p: WowProcess)
        ensures
            p.pid == pid && p.hwnd == hwnd && p.build == 0,
            p.version_name@ == "Unknown (access denied)"@,
            p.exe_path@.len() == 0,
    {
        WowProcess {
            pid,
            hwnd,
            build: 0,
            version_name: "Unknown (access denied)".to_owned(),
            exe_path: String::new(),
        }
    }

    /// The record of a process whose image path is `exe_path` (empty when it
    /// could not be queried) and whose version word is `version_ls`.
    pub fn identified(pid: u32, hwnd: isize, exe_path: String, version_ls: Option<u32>) -> (p:
        WowProcess)
        ensures
            p.pid == pid && p.hwnd == hwnd,
            p.exe_path@ == exe_path@,
            p.build == recorded_build(exe_path@, version_ls),
            p.version_name@ == version_name(p.build),
    {
        let build = if exe_path.as_str().unicode_len() == 0 {
            0
        } else {
            match version_ls {
                Some(ls) => build_from_version_ls(ls),
                None => 0,
            }
        };
        WowProcess { pid, hwnd, build, version_name: build_to_version_name(build), exe_path }
    }
}

/// Appends `p` unless a record of the same process is already there.
pub fn add_process(list: &mut Vec<WowProcess>, p: WowProcess)
    ensures
        (exists|i: int| 0 <= i < old(list)@.len() && old(list)@[i].pid == p.pid) ==> final(list)@ == old(list)@,
        (forall|i: int| 0 <= i < old(list)@.len() ==> old(list)@[i].pid != p.pid) ==> final(list)@ == old(list)@.push(p),
{
    let mut i: usize = 0;
    while i < list.len()
        invariant
            i <= list@.len(),
            list@ == old(list)@,
            forall|j: int| 0 <= j < i ==> list@[j].pid != p.pid,
        decreases list@.len() - i,
    {
        if list[i].pid == p.pid {
            return;
        }
        i = i + 1;
    }
    list.push(p);
}

} // verus!
