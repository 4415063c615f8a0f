//! The native API surface: what `log`, `clear` and `rectangle` make of the
//! arguments a script passes them.
//!
//! Scripts supply arguments positionally with no type enforcement.  The
//! engine-side glue reduces each argument to two plain facts before the
//! logic here runs: for the drawing calls, whether the position held a
//! numeric value and, if so, its 64-bit encoding; for `log`, the string
//! form of each argument, or nothing when an argument could not be
//! stringified.  Everything past that boundary is stated and proved here.

use vstd::prelude::*;
use vstd::string::StringExecFns;

verus! {

/// Coercion of one positional argument of a drawing call: a position that
/// held a numeric value keeps it, a missing or non-numeric position
/// becomes the encoding `0`, which is the engine's number zero.
pub open spec fn spec_coerce(arg: Option<u64>) -> u64 {
    match arg {
        Option::Some(n) => n,
        Option::None => 0,
    }
}

/// The coerced value of position `i` of an argument list; positions past
/// the end of the list are missing and coerce to `0`.
pub open spec fn spec_arg_at(args: Seq<Option<u64>>, i: int) -> u64 {
    if 0 <= i < args.len() {
        spec_coerce(args[i])
    } else {
        0
    }
}

/// Coerce one positional argument, as [`spec_coerce`] says.
pub fn coerce_numeric(arg: Option<u64>) -> (r: u64)
    ensures
        r == spec_coerce(arg),
{
    match arg {
        Option::Some(n) => n,
        Option::None => 0,
    }
}

/// Coerce position `i` of an argument list, as [`spec_arg_at`] says.
pub fn arg_at(args: &Vec<Option<u64>>, i: usize) -> (r: u64)
    ensures
        r == spec_arg_at(args@, i as int),
{
    if i < args.len() {
        coerce_numeric(args[i])
    } else {
        0
    }
}

/// A missing argument never raises an error: it coerces to the zero
/// encoding, whatever else the argument list holds.
pub proof fn lemma_missing_argument_coerces_to_zero(args: Seq<Option<u64>>, i: int)
    requires
        i >= args.len() || (0 <= i && args[i] is None),
    ensures
        spec_arg_at(args, i) == 0,
{
}

/// A fill color; each channel carries the engine's 64-bit numeric
/// encoding, interpreted by the drawing toolkit when the command is
/// applied to a surface.
#[derive(Clone, Copy, Debug, PartialEq, Eq, Structural)]
pub struct Color {
    pub r: u64,
    pub g: u64,
    pub b: u64,
    pub a: u64,
}

/// An axis-aligned rectangle: position, width and height, in the same
/// numeric encoding as [`Color`].
#[derive(Clone, Copy, Debug, PartialEq, Eq, Structural)]
pub struct Rect {
    pub x: u64,
    pub y: u64,
    pub w: u64,
    pub h: u64,
}

/// A drawing action, captured by value and independent of any frame
/// resource: fill the whole surface, or fill one rectangle under the
/// drawing context's current transform.
#[derive(Clone, Copy, Debug, PartialEq, Eq, Structural)]
pub enum DrawCommand {
    Clear { color: Color },
    Rectangle { color: Color, bounds: Rect },
}

/// The color a drawing call reads from argument positions 0 to 3.
pub open spec fn spec_color_args(args: Seq<Option<u64>>) -> Color {
    Color {
        r: spec_arg_at(args, 0),
        g: spec_arg_at(args, 1),
        b: spec_arg_at(args, 2),
        a: spec_arg_at(args, 3),
    }
}

/// The bounds a `rectangle` call reads from argument positions 4 to 7.
pub open spec fn spec_rect_args(args: Seq<Option<u64>>) -> Rect {
    Rect {
        x: spec_arg_at(args, 4),
        y: spec_arg_at(args, 5),
        w: spec_arg_at(args, 6),
        h: spec_arg_at(args, 7),
    }
}

/// The command a `clear(r, g, b, a)` call captures.
pub open spec fn spec_clear_command(args: Seq<Option<u64>>) -> DrawCommand {
    DrawCommand::Clear { color: spec_color_args(args) }
}

/// The command a `rectangle(r, g, b, a, x, y, w, h)` call captures.
pub open spec fn spec_rectangle_command(args: Seq<Option<u64>>) -> DrawCommand {
    DrawCommand::Rectangle { color: spec_color_args(args), bounds: spec_rect_args(args) }
}

/// Build the drawing command of a `clear` call from its coerced
/// arguments.
pub fn clear_command(args: &Vec<Option<u64>>) -> (c: DrawCommand)
    ensures
        c == spec_clear_command(args@),
{
    DrawCommand::Clear {
        color: Color {
            r: arg_at(args, 0),
            g: arg_at(args, 1),
            b: arg_at(args, 2),
            a: arg_at(args, 3),
        },
    }
}

/// Build the drawing command of a `rectangle` call from its coerced
/// arguments.
pub fn rectangle_command(args: &Vec<Option<u64>>) -> (c: DrawCommand)
    ensures
        c == spec_rectangle_command(args@),
{
    DrawCommand::Rectangle {
        color: Color {
            r: arg_at(args, 0),
            g: arg_at(args, 1),
            b: arg_at(args, 2),
            a: arg_at(args, 3),
        },
        bounds: Rect {
            x: arg_at(args, 4),
            y: arg_at(args, 5),
            w: arg_at(args, 6),
            h: arg_at(args, 7),
        },
    }
}

/// The text one `log` argument contributes: its string form, or the fixed
/// placeholder when the argument could not be stringified.
pub open spec fn spec_part_text(part: Option<String>) -> Seq<char> {
    match part {
        Option::Some(s) => s@,
        Option::None => "<exception>"@,
    }
}

/// The concatenation of the texts of all arguments, in order, with no
/// separator.
pub open spec fn spec_parts_text(parts: Seq<Option<String>>) -> Seq<char>
    decreases parts.len(),
{
    if parts.len() == 0 {
        Seq::<char>::empty()
    } else {
        spec_parts_text(parts.drop_last()) + spec_part_text(parts.last())
    }
}

/// The full line a `log` call writes: the concatenated argument texts and
/// a single trailing line break.
pub open spec fn spec_log_line(parts: Seq<Option<String>>) -> Seq<char> {
    spec_parts_text(parts) + "\n"@
}

/// Format one `log` call.  Each argument arrives as its string form, or as
/// nothing when stringification failed; the result is exactly the line of
/// [`spec_log_line`].
pub fn format_log_line(parts: &Vec<Option<String>>) -> (line: String)
    ensures
        line@ == spec_log_line(parts@),
{
    let mut line = String::new();
    let mut i: usize = 0;
    proof {
        assert(parts@.take(0) =~= Seq::<Option<String>>::empty());
    }
    while i < parts.len()
        invariant
            i <= parts.len(),
            line@ == spec_parts_text(parts@.take(i as int)),
        decreases parts.len() - i,
    {
        match &parts[i] {
            Option::Some(s) => line.append(s.as_str()),
            Option::None => line.append("<exception>"),
        }
        proof {
            assert(parts@.take(i + 1).drop_last() =~= parts@.take(i as int));
        }
        i = i + 1;
    }
    proof {
        assert(parts@.take(parts.len() as int) =~= parts@);
    }
    line.append("\n");
    line
}

} // verus!
