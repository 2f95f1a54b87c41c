//! The renderer's socket command: the host listens for JSON-encoded commands
//! on a local socket, one per line, and hands each stripped line here. The
//! only command so far is the one that spawns a presentation window.

use vstd::prelude::*;
use crate::str_eq;

verus! {

/// A command the window renderer understands.
#[derive(Clone, Copy, Debug, PartialEq, Eq, Structural)]
pub enum RendererCommand {
    /// Create a new window with its own presentation pipeline.
    SpawnWindow,
}

/// The command a stripped line denotes: the JSON encoding of the command
/// name, or nothing.
pub open spec fn spec_parse_renderer_command(s: Seq<char>) -> Option<RendererCommand> {
    if s == "\"SpawnWindow\""@ {
        Some(RendererCommand::SpawnWindow)
    } else {
        None
    }
}

/// Parses a stripped line into the command it denotes, if any.
pub fn parse_renderer_command(line: &str) -> (r: Option<RendererCommand>)
    ensures
        r == spec_parse_renderer_command(line@),
        r is Some <==> line@ == "\"SpawnWindow\""@,
{
    if str_eq(line, "\"SpawnWindow\"") {
        Some(RendererCommand::SpawnWindow)
    } else {
        None
    }
}

} // verus!
