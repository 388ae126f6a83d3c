//! Debug commands typed on the keyboard during play, such as `@pause` or
//! `@` followed by a level's name.
use vstd::prelude::*;
use vstd::string::StrSliceExecFns;
use crate::text::ends_with;
use crate::text::str_ends_with;

verus! {

/// The command that warps to a level: `@` and the level's name.
pub open spec fn warp_command(name: Seq<char>) -> Seq<char> {
    seq!['@'] + name
}

/// Whether `s` ends with `@` and the given level name.
pub fn ends_with_level(s: &str, name: &str) -> (r: bool)
    ensures
        r == ends_with(s@, warp_command(name@)),
{
    let n = s.unicode_len();
    let m = name.unicode_len();
    if m >= n {
        return false;
    }
    if s.get_char(n - m - 1) != '@' {
        assert(s@.subrange(n - m - 1, n as int)[0] != warp_command(name@)[0]);
        return false;
    }
    let mut i: usize = 0;
    while i < m
        invariant
            i <= m,
            m + 1 <= n,
            n == s@.len(),
            m == name@.len(),
            s@[n - m - 1] == '@',
            forall|j: int| 0 <= j < i ==> s@[n - m + j] == name@[j],
        decreases m - i,
    {
        if s.get_char(n - m + i) != name.get_char(i) {
            assert(s@.subrange(n - m - 1, n as int)[i + 1] != warp_command(name@)[i + 1]);
            return false;
        }
        i = i + 1;
    }
    assert(s@.subrange(n - m - 1, n as int) =~= warp_command(name@));
    true
}

/// A debug command.
#[derive(Debug, PartialEq, Eq)]
pub enum DebugCommand {
    /// Warp to the named level.
    Warp(String),
    /// Warp to one of the levels that follow the current one.
    Next,
    Pause,
    Resume,
    /// Play the ending.
    Ending,
    /// Put the debug spells into the inventory.
    Item,
    Nothing,
}

/// The command typed so far, from the buffer of keys typed: the first
/// level (in the given order) whose warp command ends the buffer, or else
/// `@next`, `@pause`, `@resume`, `@ending` or `@item` ending the buffer,
/// in that order of precedence, or nothing. Every command but `Nothing`
/// clears the buffer when carried out.
pub fn process_debug_command(buffer: &str, level_names: &Vec<String>) -> (r: DebugCommand)
    ensures
        (exists|i: int|
            0 <= i < level_names@.len() && ends_with(
                buffer@,
                warp_command(#[trigger] level_names@[i]@),
            )) <==> r is Warp,
        r matches DebugCommand::Warp(n) ==> exists|i: int|
            0 <= i < level_names@.len() && n@ == level_names@[i]@ && ends_with(
                buffer@,
                warp_command(level_names@[i]@),
            ) && forall|j: int|
                0 <= j < i ==> !ends_with(buffer@, warp_command(#[trigger] level_names@[j]@)),
        !(r is Warp) ==> r == (if ends_with(buffer@, "@next"@) {
            DebugCommand::Next
        } else if ends_with(buffer@, "@pause"@) {
            DebugCommand::Pause
        } else if ends_with(buffer@, "@resume"@) {
            DebugCommand::Resume
        } else if ends_with(buffer@, "@ending"@) {
            DebugCommand::Ending
        } else if ends_with(buffer@, "@item"@) {
            DebugCommand::Item
        } else {
            DebugCommand::Nothing
        }),
{
    let mut i: usize = 0;
    while i < level_names.len()
        invariant
            i <= level_names@.len(),
            forall|j: int|
                0 <= j < i ==> !ends_with(buffer@, warp_command(#[trigger] level_names@[j]@)),
        decreases level_names@.len() - i,
    {
        if ends_with_level(buffer, level_names[i].as_str()) {
            let name = level_names[i].clone();
            return DebugCommand::Warp(name);
        }
        i = i + 1;
    }
    if str_ends_with(buffer, "@next") {
        DebugCommand::Next
    } else if str_ends_with(buffer, "@pause") {
        DebugCommand::Pause
    } else if str_ends_with(buffer, "@resume") {
        DebugCommand::Resume
    } else if str_ends_with(buffer, "@ending") {
        DebugCommand::Ending
    } else if str_ends_with(buffer, "@item") {
        DebugCommand::Item
    } else {
        DebugCommand::Nothing
    }
}

} // verus!
