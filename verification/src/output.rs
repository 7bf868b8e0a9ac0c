//! The output handler: its debug switch and the pure text shaping it
//! applies before anything reaches the console. The printing itself is
//! console I/O and lives with the embedding application.

use vstd::prelude::*;

use crate::strutil::{
    dec_rep, join_lines, join_nl, lines_spec, split_lines, strings_view, usize_to_string,
};

verus! {

/// What a tool result is cut down to when it is over the line budget: the
/// first `max_lines` lines, then a note with the count of what was cut.
pub open spec fn truncated_output_spec(s: Seq<char>, max_lines: int) -> Seq<char> {
    let lines = lines_spec(s);
    if lines.len() <= max_lines {
        s
    } else {
        join_nl(lines.take(max_lines)) + "\n... ("@ + dec_rep(lines.len() - max_lines)
            + " more lines)"@
    }
}

/// Shapes what the application prints: carries the debug switch and cuts
/// long tool output down to a line budget.
#[derive(Debug, Clone, Copy, PartialEq, Eq, Structural)]
pub struct OutputHandler {
    pub debug: bool,
}

impl OutputHandler {
    /// A handler with debugging off.
    pub fn new() -> (r: OutputHandler)
        ensures
            !r.debug,
    {
        OutputHandler { debug: false }
    }

    /// The handler with the debug switch set as given.
    pub fn with_debug(self, debug: bool) -> (r: OutputHandler)
        ensures
            r.debug == debug,
    {
        OutputHandler { debug }
    }

    /// Whether debugging output is on.
    pub fn is_debug(&self) -> (r: bool)
        ensures
            r == self.debug,
    {
        self.debug
    }

    /// Cut `output` down to at most `max_lines` lines, appending a note
    /// with the count of the lines cut.
    pub fn truncate_output(&self, output: &str, max_lines: usize) -> (r: String)
        ensures
            r@ == truncated_output_spec(output@, max_lines as int),
    {
        let lines = split_lines(output);
        let n = lines.len();
        proof {
            assert(strings_view(lines@).len() == lines@.len());
        }
        if n <= max_lines {
            return output.to_owned();
        }
        let mut kept: Vec<String> = Vec::new();
        let mut i: usize = 0;
        while i < max_lines
            invariant
                strings_view(lines@) == lines_spec(output@),
                n == lines@.len(),
                max_lines < n,
                i <= max_lines,
                kept@.len() == i,
                strings_view(kept@) =~~= strings_view(lines@).take(i as int),
            decreases max_lines - i,
        {
            let item = lines[i].clone();
            kept.push(item);
            proof {
                assert(kept@[i as int] == lines@[i as int]);
                assert(strings_view(kept@)[i as int] == strings_view(lines@)[i as int]);
                assert(strings_view(kept@) =~~= strings_view(lines@).take(i + 1));
            }
            i = i + 1;
        }
        let mut out = join_lines(&kept);
        out.append("\n... (");
        out.append(usize_to_string(n - max_lines).as_str());
        out.append(" more lines)");
        proof {
            assert(out@ =~= truncated_output_spec(output@, max_lines as int));
        }
        out
    }
}

impl Default for OutputHandler {
    /// Same as [`OutputHandler::new`].
    fn default() -> (r: OutputHandler)
        ensures
            !r.debug,
    {
        OutputHandler::new()
    }
}

} // verus!
