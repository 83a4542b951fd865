//! Source-map translation of script exceptions: every position of a stack
//! trace is looked up in a source map and, where the map knows it, replaced
//! by the position in the original source.

use vstd::prelude::*;
use crate::js_errors::{JSError, JSErrorView, StackFrame, StackFrameView};

verus! {

/// A position in a script: its name, a line and a column.
#[derive(Debug)]
pub struct Position {
    pub script_name: String,
    pub line: i64,
    pub column: i64,
}

pub struct PositionView {
    pub script_name: Seq<char>,
    pub line: i64,
    pub column: i64,
}

impl View for Position {
    type V = PositionView;

    open spec fn view(&self) -> PositionView {
        PositionView { script_name: self.script_name@, line: self.line, column: self.column }
    }
}

/// What a source map answers for one position.
pub open spec fn answer_view(found: Option<Position>) -> Option<PositionView> {
    match found {
        Some(position) => Some(position@),
        None => None,
    }
}

/// A source map, as far as this library asks it. A map answers the same
/// question the same way every time: what it answers is [`Self::answer`],
/// and an implementation owes that its lookup gives just that.
pub trait SourceMapGetter {
    /// What the map knows of the generated position (`script_name`, `line`,
    /// `column`): the position in the original source that it comes from,
    /// or `None`.
    spec fn answer(&self, script_name: Seq<char>, line: i64, column: i64) -> Option<PositionView>;

    /// The position in the original source that the generated position
    /// (`script_name`, `line`, `column`) comes from, or `None` where the map
    /// does not know.
    fn original_position(&self, script_name: &str, line: i64, column: i64) -> (found: Option<
        Position,
    >)
        ensures
            answer_view(found) == self.answer(script_name@, line, column),
    ;
}

/// One line of a source map that is written out as a table: a generated
/// position and the original position that it comes from.
#[derive(Debug)]
pub struct Mapping {
    pub generated: Position,
    pub original: Position,
}

/// A source map that is written out as a table. It knows the positions
/// that it lists and no others; where a position is listed twice, the
/// first line counts.
#[derive(Debug)]
pub struct PositionTable {
    pub mappings: Vec<Mapping>,
}

pub struct MappingView {
    pub generated: PositionView,
    pub original: PositionView,
}

impl View for Mapping {
    type V = MappingView;

    open spec fn view(&self) -> MappingView {
        MappingView { generated: self.generated@, original: self.original@ }
    }
}

impl View for PositionTable {
    type V = Seq<MappingView>;

    open spec fn view(&self) -> Seq<MappingView> {
        Seq::new(self.mappings@.len(), |i: int| self.mappings@[i]@)
    }
}

/// The original of `generated` in the first line of `mappings` that lists
/// it, or `None` where no line does.
pub open spec fn first_listed(mappings: Seq<MappingView>, generated: PositionView) -> Option<
    PositionView,
>
    decreases mappings.len(),
{
    if mappings.len() == 0 {
        None
    } else if mappings[0].generated == generated {
        Some(mappings[0].original)
    } else {
        first_listed(mappings.drop_first(), generated)
    }
}

impl PositionTable {
    /// A table without lines: a map that knows nothing.
    pub fn empty() -> (table: PositionTable)
        ensures
            table@.len() == 0,
    {
        PositionTable { mappings: Vec::new() }
    }
}

impl SourceMapGetter for PositionTable {
    open spec fn answer(&self, script_name: Seq<char>, line: i64, column: i64) -> Option<
        PositionView,
    > {
        first_listed(self@, PositionView { script_name, line, column })
    }

    fn original_position(&self, script_name: &str, line: i64, column: i64) -> (found: Option<
        Position,
    >) {
        let wanted = script_name.to_owned();
        let ghost generated = PositionView { script_name: script_name@, line, column };
        let n: usize = self.mappings.len();
        let mut i: usize = 0;
        assert(self@.skip(0) =~= self@);
        while i < n
            invariant
                n == self.mappings@.len(),
                i <= n,
                wanted@ == script_name@,
                generated == (PositionView { script_name: script_name@, line, column }),
                first_listed(self@, generated) == first_listed(self@.skip(i as int), generated),
            decreases n - i,
        {
            let mapping = &self.mappings[i];
            assert(self@.skip(i as int)[0] == mapping@);
            assert(self@.skip(i as int).drop_first() =~= self@.skip(i + 1));
            if mapping.generated.line == line && mapping.generated.column == column
                && mapping.generated.script_name == wanted {
                assert(mapping@.generated == generated);
                assert(first_listed(self@.skip(i as int), generated) == Some(mapping@.original));
                return Some(
                    Position {
                        script_name: mapping.original.script_name.clone(),
                        line: mapping.original.line,
                        column: mapping.original.column,
                    },
                );
            }
            i = i + 1;
        }
        None
    }
}

impl StackFrameView {
    /// This frame after a source map has answered `found` for its position:
    /// moved to the position found, or left where it is.
    pub open spec fn relocated(self, found: Option<PositionView>) -> StackFrameView {
        match found {
            Some(position) => StackFrameView {
                line: position.line,
                column: position.column,
                function_name: self.function_name,
                script_name: position.script_name,
            },
            None => self,
        }
    }

    /// This frame, translated by `getter`: relocated by what the map
    /// answers for the frame's own script name, line and column.
    pub open spec fn translated<G: SourceMapGetter>(self, getter: &G) -> StackFrameView {
        self.relocated(getter.answer(self.script_name, self.line, self.column))
    }
}

impl JSErrorView {
    /// This exception, translated by `getter`: the same message, and
    /// every frame translated, in order.
    pub open spec fn translated<G: SourceMapGetter>(self, getter: &G) -> JSErrorView {
        JSErrorView {
            message: self.message,
            frames: Seq::new(self.frames.len(), |i: int| self.frames[i].translated(getter)),
        }
    }
}

impl StackFrame {
    /// Moves the frame to the position that a source map has answered for
    /// it; leaves it unchanged where the map had no answer.
    pub fn relocated(&self, found: Option<Position>) -> (frame: StackFrame)
        ensures
            frame@ == self@.relocated(answer_view(found)),
    {
        match found {
            Some(position) => StackFrame {
                line: position.line,
                column: position.column,
                function_name: self.function_name.clone(),
                script_name: position.script_name,
            },
            None => StackFrame {
                line: self.line,
                column: self.column,
                function_name: self.function_name.clone(),
                script_name: self.script_name.clone(),
            },
        }
    }
}

/// Translates a script exception: asks `getter` for the original position
/// of every frame, in order, and relocates the frame by the answer. The
/// message and the number of frames stay as they are.
pub fn apply_source_map<G: SourceMapGetter>(js_error: &JSError, getter: &G) -> (mapped: JSError)
    ensures
        mapped@ == js_error@.translated(getter),
{
    let mut frames: Vec<StackFrame> = Vec::new();
    let n: usize = js_error.frames.len();
    let mut i: usize = 0;
    while i < n
        invariant
            n == js_error.frames@.len(),
            i <= n,
            frames@.len() == i,
            forall|j: int| 0 <= j < i ==> (#[trigger] frames@[j])@ == js_error.frames@[j]@.translated(getter),
        decreases n - i,
    {
        let frame = &js_error.frames[i];
        let found = getter.original_position(frame.script_name.as_str(), frame.line, frame.column);
        frames.push(frame.relocated(found));
        i = i + 1;
    }
    let mapped = JSError { message: js_error.message.clone(), frames };
    assert(mapped@.frames =~= js_error@.translated(getter).frames);
    mapped
}

} // verus!
