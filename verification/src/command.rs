//! Menu command identifiers.
//!
//! Command identifiers arrive from the host window system as strings. The
//! library closes them into a tagged enumeration with an explicit `Unknown`
//! variant, so that the dispatcher is a total, exhaustively checked match
//! while truly unknown wire-level identifiers keep their forward-compatible
//! no-op behaviour.

use vstd::prelude::*;
use crate::str_eq;

verus! {

/// One known menu command, or `Unknown` for any identifier outside the table.
#[derive(Clone, Copy, PartialEq, Eq, Structural, Debug)]
pub enum CommandId {
    Preferences,
    Quit,
    CopyText,
    PasteText,
    CutText,
    SelectAllText,
    Fullscreen,
    Reload,
    Devtools,
    About,
    Documentation,
    Unknown,
}

/// A text-editing command forwarded to the focused content surface.
#[derive(Clone, Copy, PartialEq, Eq, Structural, Debug)]
pub enum EditCommand {
    CopyText,
    PasteText,
    CutText,
    SelectAllText,
}

/// The command denoted by an identifier string; `Unknown` for all others.
pub open spec fn command_of(s: Seq<char>) -> CommandId {
    if s == "preferences"@ {
        CommandId::Preferences
    } else if s == "quit"@ {
        CommandId::Quit
    } else if s == "copy"@ {
        CommandId::CopyText
    } else if s == "paste"@ {
        CommandId::PasteText
    } else if s == "cut"@ {
        CommandId::CutText
    } else if s == "selectAll"@ {
        CommandId::SelectAllText
    } else if s == "fullscreen"@ {
        CommandId::Fullscreen
    } else if s == "reload"@ {
        CommandId::Reload
    } else if s == "devtools"@ {
        CommandId::Devtools
    } else if s == "about"@ {
        CommandId::About
    } else if s == "documentation"@ {
        CommandId::Documentation
    } else {
        CommandId::Unknown
    }
}

/// Closes an identifier string into the command enumeration.
pub fn parse_command(s: &str) -> (c: CommandId)
    ensures
        c == command_of(s@),
{
    if str_eq(s, "preferences") {
        CommandId::Preferences
    } else if str_eq(s, "quit") {
        CommandId::Quit
    } else if str_eq(s, "copy") {
        CommandId::CopyText
    } else if str_eq(s, "paste") {
        CommandId::PasteText
    } else if str_eq(s, "cut") {
        CommandId::CutText
    } else if str_eq(s, "selectAll") {
        CommandId::SelectAllText
    } else if str_eq(s, "fullscreen") {
        CommandId::Fullscreen
    } else if str_eq(s, "reload") {
        CommandId::Reload
    } else if str_eq(s, "devtools") {
        CommandId::Devtools
    } else if str_eq(s, "about") {
        CommandId::About
    } else if str_eq(s, "documentation") {
        CommandId::Documentation
    } else {
        CommandId::Unknown
    }
}

} // verus!
