use vstd::prelude::*;

use crate::import::{views, CompileError};

verus! {

/// Whether `c` has the Unicode property White_Space.
pub open spec fn is_white_space(c: char) -> bool {
    let u = c as u32;
    ||| 0x9 <= u <= 0xd
    ||| u == 0x20
    ||| u == 0x85
    ||| u == 0xa0
    ||| u == 0x1680
    ||| 0x2000 <= u <= 0x200a
    ||| u == 0x2028
    ||| u == 0x2029
    ||| u == 0x202f
    ||| u == 0x205f
    ||| u == 0x3000
}

/// The characters of `s` without its trailing white space.
pub open spec fn trim_end_of(s: Seq<char>) -> Seq<char>
    decreases s.len(),
{
    if s.len() > 0 && is_white_space(s.last()) {
        trim_end_of(s.drop_last())
    } else {
        s
    }
}

/// Relies on `str::trim_end`: the line without its trailing characters of
/// the Unicode property White_Space.
#[verifier::external_body]
fn trim_end(s: &str) -> (r: String)
    ensures
        r@ == trim_end_of(s@),
{
    s.trim_end().to_string()
}

/// What to do after a line was read.
#[derive(PartialEq, Eq, Structural, Clone, Copy, Debug)]
pub enum LineAction {
    /// Compile the whole input buffer as one interactive statement.
    Compile,
    /// Read another line first.
    Wait,
}

/// What to do after the buffer was compiled.
#[derive(PartialEq, Eq, Debug)]
pub enum ShellAction<C> {
    /// Run this unit in the session scope, then call `executed`.
    Execute(C),
    /// Report this syntax error; the buffer was dropped.
    ReportSyntaxError(CompileError),
    /// The statement is unfinished: read more lines.
    More,
}

/// The state of an interactive session: the lines typed for the statement
/// at hand, whether the session waits for the rest of a block, the history of
/// lines, and the value bound to `_` in the session scope.
pub struct Shell<V> {
    pub input: String,
    pub continuing: bool,
    pub history: Vec<String>,
    pub underscore: Option<V>,
}

impl<V> Shell<V> {
    /// A session in the primary state with an empty buffer, the given history
    /// and no `_`.
    pub fn new(history: Vec<String>) -> (r: Shell<V>)
        ensures
            r.input@.len() == 0,
            !r.continuing,
            r.history == history,
            r.underscore is None,
    {
        Shell { input: String::new(), continuing: false, history, underscore: None }
    }

    /// The prompt to show: `ps2` while a block goes on, else `ps1`.
    pub fn get_prompt(&self, ps1: &String, ps2: &String) -> (r: String)
        ensures
            r@ == if self.continuing {
                ps2@
            } else {
                ps1@
            },
    {
        if self.continuing {
            ps2.clone()
        } else {
            ps1.clone()
        }
    }

    /// Takes one typed line: it joins the buffer with a newline and, trimmed
    /// of trailing whitespace, the history. In the primary state the buffer
    /// is then compiled. While a block goes on, an empty line ends it (back to
    /// the primary state, and the buffer is compiled); another line waits.
    pub fn feed_line(&mut self, line: &str) -> (r: LineAction)
        ensures
            final(self).input@ == old(self).input@ + line@ + "\n"@,
            views(final(self).history@) == views(old(self).history@).push(trim_end_of(line@)),
            final(self).underscore == old(self).underscore,
            final(self).continuing == (old(self).continuing && line@.len() != 0),
            r == if old(self).continuing && line@.len() != 0 {
                LineAction::Wait
            } else {
                LineAction::Compile
            },
    {
        self.input.append(line);
        self.input.append("\n");
        let ghost h = self.history@;
        self.history.push(trim_end(line));
        assert(views(self.history@) =~= views(h).push(trim_end_of(line@)));
        if self.continuing {
            if line.unicode_len() == 0 {
                self.continuing = false;
                LineAction::Compile
            } else {
                LineAction::Wait
            }
        } else {
            LineAction::Compile
        }
    }

    /// Takes what compiling the buffer gave. An unfinished statement keeps the
    /// buffer and waits for more lines. Otherwise the buffer is dropped, the
    /// session is back in the primary state, and the unit is to run or the
    /// error to be reported.
    pub fn compiled<C>(&mut self, outcome: Result<C, CompileError>) -> (r: ShellAction<C>)
        ensures
            final(self).history == old(self).history,
            final(self).underscore == old(self).underscore,
            outcome == Err::<C, CompileError>(CompileError::Incomplete) ==> r == ShellAction::<
                C,
            >::More && final(self).continuing && final(self).input == old(self).input,
            outcome != Err::<C, CompileError>(CompileError::Incomplete) ==> !final(self).continuing
                && final(self).input@.len() == 0 && match outcome {
                Ok(c) => r == ShellAction::Execute(c),
                Err(e) => r == ShellAction::<C>::ReportSyntaxError(e),
            },
    {
        match outcome {
            Err(CompileError::Incomplete) => {
                self.continuing = true;
                ShellAction::More
            },
            Ok(c) => {
                self.input = String::new();
                self.continuing = false;
                ShellAction::Execute(c)
            },
            Err(e) => {
                self.input = String::new();
                self.continuing = false;
                ShellAction::ReportSyntaxError(e)
            },
        }
    }

    /// Takes what running a unit gave: a value other than "no value" becomes
    /// `_`; an exception is handed back to be reported, and the session goes on.
    pub fn executed<E>(&mut self, outcome: Result<Option<V>, E>) -> (r: Option<E>)
        ensures
            final(self).input == old(self).input,
            final(self).continuing == old(self).continuing,
            final(self).history == old(self).history,
            final(self).underscore == match outcome {
                Ok(Some(v)) => Some(v),
                _ => old(self).underscore,
            },
            r == match outcome {
                Err(e) => Some(e),
                Ok(_) => None::<E>,
            },
    {
        match outcome {
            Ok(Some(v)) => {
                self.underscore = Some(v);
                None
            },
            Ok(None) => None,
            Err(e) => Some(e),
        }
    }

    /// An interrupt: the buffer is dropped and the session is back in the
    /// primary state.
    pub fn interrupt(&mut self)
        ensures
            !final(self).continuing,
            final(self).input@.len() == 0,
            final(self).history == old(self).history,
            final(self).underscore == old(self).underscore,
    {
        self.input = String::new();
        self.continuing = false;
    }
}

} // verus!
