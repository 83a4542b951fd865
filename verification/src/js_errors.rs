//! Script exceptions: a message and the stack of frames it was thrown from,
//! and how they are shown on a terminal.

use vstd::prelude::*;
use vstd::string::StringExecFns;
use crate::numerals::{decimal, decimal_text};

verus! {

/// One frame of a script stack trace.
#[derive(Debug)]
pub struct StackFrame {
    pub line: i64,
    pub column: i64,
    pub function_name: String,
    pub script_name: String,
}

/// An exception thrown by script code.
#[derive(Debug)]
pub struct JSError {
    pub message: String,
    pub frames: Vec<StackFrame>,
}

pub struct StackFrameView {
    pub line: i64,
    pub column: i64,
    pub function_name: Seq<char>,
    pub script_name: Seq<char>,
}

pub struct JSErrorView {
    pub message: Seq<char>,
    pub frames: Seq<StackFrameView>,
}

impl View for StackFrame {
    type V = StackFrameView;

    open spec fn view(&self) -> StackFrameView {
        StackFrameView {
            line: self.line,
            column: self.column,
            function_name: self.function_name@,
            script_name: self.script_name@,
        }
    }
}

impl View for JSError {
    type V = JSErrorView;

    open spec fn view(&self) -> JSErrorView {
        JSErrorView {
            message: self.message@,
            frames: Seq::new(self.frames@.len(), |i: int| self.frames@[i]@),
        }
    }
}

/// `s` in bold.
pub open spec fn bold(s: Seq<char>) -> Seq<char> {
    "\x1b[1m"@ + s + "\x1b[0m"@
}

/// `s` in bold italics.
pub open spec fn italic_bold(s: Seq<char>) -> Seq<char> {
    "\x1b[1m\x1b[3m"@ + s + "\x1b[0m"@
}

/// `s` in cyan.
pub open spec fn cyan(s: Seq<char>) -> Seq<char> {
    "\x1b[36m"@ + s + "\x1b[0m"@
}

/// `s` in yellow.
pub open spec fn yellow(s: Seq<char>) -> Seq<char> {
    "\x1b[33m"@ + s + "\x1b[0m"@
}

impl StackFrameView {
    /// Where the frame is: script name, line and column, each in its colour.
    pub open spec fn location(self) -> Seq<char> {
        cyan(self.script_name) + ":"@ + yellow(decimal_text(self.line as int)) + ":"@ + yellow(
            decimal_text(self.column as int),
        )
    }

    /// The line of a stack trace that shows this frame. A frame without a
    /// function name shows its location alone.
    pub open spec fn rendered(self) -> Seq<char> {
        if self.function_name.len() == 0 {
            "    at "@ + self.location()
        } else {
            "    at "@ + italic_bold(self.function_name) + " ("@ + self.location() + ")"@
        }
    }
}

/// The first `n` frames of a stack trace, each on a new line.
pub open spec fn trace(frames: Seq<StackFrameView>, n: nat) -> Seq<char>
    decreases n,
{
    if n == 0 {
        Seq::empty()
    } else {
        trace(frames, (n - 1) as nat) + "\n"@ + frames[n - 1].rendered()
    }
}

impl JSErrorView {
    /// The exception as it is shown: the message in bold, then the stack
    /// trace, one frame per line.
    pub open spec fn rendered(self) -> Seq<char> {
        bold(self.message) + trace(self.frames, self.frames.len())
    }
}

fn wrap(start: &str, s: &str) -> (text: String)
    ensures
        text@ == start@ + s@ + "\x1b[0m"@,
{
    let mut text = start.to_owned();
    text.append(s);
    text.append("\x1b[0m");
    text
}

impl StackFrame {
    /// Renders where the frame is.
    pub fn location(&self) -> (text: String)
        ensures
            text@ == self@.location(),
    {
        let mut text = wrap("\x1b[36m", self.script_name.as_str());
        text.append(":");
        text.append(wrap("\x1b[33m", decimal(self.line).as_str()).as_str());
        text.append(":");
        text.append(wrap("\x1b[33m", decimal(self.column).as_str()).as_str());
        text
    }

    /// Renders the frame as one line of a stack trace.
    pub fn render(&self) -> (text: String)
        ensures
            text@ == self@.rendered(),
    {
        let mut text = "    at ".to_owned();
        if self.function_name.as_str().is_empty() {
            text.append(self.location().as_str());
        } else {
            text.append(wrap("\x1b[1m\x1b[3m", self.function_name.as_str()).as_str());
            text.append(" (");
            text.append(self.location().as_str());
            text.append(")");
        }
        text
    }
}

impl JSError {
    /// Renders the exception with its stack trace, in colour.
    pub fn render(&self) -> (text: String)
        ensures
            text@ == self@.rendered(),
    {
        let mut text = wrap("\x1b[1m", self.message.as_str());
        let n: usize = self.frames.len();
        let mut i: usize = 0;
        while i < n
            invariant
                n == self.frames@.len(),
                i <= n,
                text@ == bold(self.message@) + trace(self@.frames, i as nat),
            decreases n - i,
        {
            let line = self.frames[i].render();
            text.append("\n");
            text.append(line.as_str());
            assert(text@ =~= bold(self.message@) + trace(self@.frames, (i + 1) as nat));
            i = i + 1;
        }
        text
    }
}

} // verus!
