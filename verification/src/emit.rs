//! The style tracker: converts an ordered sequence of draw commands into a
//! minimal ordered sequence of terminal control operations, suppressing
//! redundant style and color changes.

use vstd::prelude::*;

use crate::diff::{cmds_view, DrawCommand, DrawCommandV};
use crate::style::{Color, Modifier};

verus! {

/// A single terminal attribute toggle.
///
/// Intensity (bold/dim) shares one encoding axis on many terminals:
/// `NormalIntensity` clears both bold and dim.
#[derive(Clone, Copy, Debug, PartialEq, Eq, Structural)]
pub enum Attr {
    Reset,
    Bold,
    Dim,
    Italic,
    Underlined,
    Reversed,
    NormalIntensity,
    NoItalic,
    NoUnderline,
    NoReversed,
}

/// One low-level operation against the terminal device.
#[derive(Debug)]
pub enum TermOp {
    /// Move the cursor to a grid position.
    MoveTo(u16, u16),
    /// Set foreground and background color in one combined operation.
    SetColors(Color, Color),
    /// Set the foreground color alone.
    SetFg(Color),
    /// Set the background color alone.
    SetBg(Color),
    /// Toggle a single attribute.
    SetAttr(Attr),
    /// Print a cell's symbol text at the cursor.
    Print(String),
}

/// The mathematical value of a [`TermOp`].
pub ghost enum TermOpV {
    MoveTo(u16, u16),
    SetColors(Color, Color),
    SetFg(Color),
    SetBg(Color),
    SetAttr(Attr),
    Print(Seq<char>),
}

impl View for TermOp {
    type V = TermOpV;

    open spec fn view(&self) -> TermOpV {
        match self {
            TermOp::MoveTo(x, y) => TermOpV::MoveTo(*x, *y),
            TermOp::SetColors(f, b) => TermOpV::SetColors(*f, *b),
            TermOp::SetFg(c) => TermOpV::SetFg(*c),
            TermOp::SetBg(c) => TermOpV::SetBg(*c),
            TermOp::SetAttr(a) => TermOpV::SetAttr(*a),
            TermOp::Print(s) => TermOpV::Print(s@),
        }
    }
}

impl Clone for TermOp {
    fn clone(&self) -> (r: TermOp)
        ensures
            r@ == self@,
    {
        match self {
            TermOp::MoveTo(x, y) => TermOp::MoveTo(*x, *y),
            TermOp::SetColors(f, b) => TermOp::SetColors(*f, *b),
            TermOp::SetFg(c) => TermOp::SetFg(*c),
            TermOp::SetBg(c) => TermOp::SetBg(*c),
            TermOp::SetAttr(a) => TermOp::SetAttr(*a),
            TermOp::Print(s) => TermOp::Print(s.clone()),
        }
    }
}

impl PartialEq for TermOp {
    fn eq(&self, other: &TermOp) -> (r: bool) {
        match (self, other) {
            (TermOp::MoveTo(a, b), TermOp::MoveTo(c, d)) => *a == *c && *b == *d,
            (TermOp::SetColors(a, b), TermOp::SetColors(c, d)) => *a == *c && *b == *d,
            (TermOp::SetFg(a), TermOp::SetFg(b)) => *a == *b,
            (TermOp::SetBg(a), TermOp::SetBg(b)) => *a == *b,
            (TermOp::SetAttr(a), TermOp::SetAttr(b)) => *a == *b,
            (TermOp::Print(a), TermOp::Print(b)) => *a == *b,
            _ => false,
        }
    }
}

impl vstd::std_specs::cmp::PartialEqSpecImpl for TermOp {
    open spec fn obeys_eq_spec() -> bool {
        true
    }

    open spec fn eq_spec(&self, other: &TermOp) -> bool {
        self@ == other@
    }
}

/// The values of a sequence of terminal operations.
pub open spec fn ops_view(s: Seq<TermOp>) -> Seq<TermOpV> {
    s.map_values(|o: TermOp| o@)
}

/// The running style state the tracker carries across commands.
pub ghost struct StyleState {
    pub fg: Color,
    pub bg: Color,
    pub modifier: Modifier,
}

/// The state at the start of each flush: reset colors, no modifiers.
pub open spec fn initial_style() -> StyleState {
    StyleState { fg: Color::Reset, bg: Color::Reset, modifier: Modifier::empty_spec() }
}

/// The attribute operations that clear the flags present in `last` but not
/// in `new`, in the fixed order reversed, bold, italic, underlined, dim.
///
/// When clearing bold would also clear a dim that is about to be added, dim
/// is re-emitted immediately, because intensity is one shared channel.
pub open spec fn removal_ops(last: Modifier, new: Modifier) -> Seq<TermOpV> {
    let s0 = Seq::<TermOpV>::empty();
    let s1 = if last.reversed && !new.reversed {
        s0.push(TermOpV::SetAttr(Attr::NoReversed))
    } else {
        s0
    };
    let s2 = if last.bold && !new.bold {
        s1.push(TermOpV::SetAttr(Attr::NormalIntensity))
    } else {
        s1
    };
    let s3 = if last.bold && !new.bold && new.dim && !last.dim {
        s2.push(TermOpV::SetAttr(Attr::Dim))
    } else {
        s2
    };
    let s4 = if last.italic && !new.italic {
        s3.push(TermOpV::SetAttr(Attr::NoItalic))
    } else {
        s3
    };
    let s5 = if last.underlined && !new.underlined {
        s4.push(TermOpV::SetAttr(Attr::NoUnderline))
    } else {
        s4
    };
    if last.dim && !new.dim {
        s5.push(TermOpV::SetAttr(Attr::NormalIntensity))
    } else {
        s5
    }
}

/// The attribute operations that set the flags present in `new` but not in
/// `last`, in the fixed order reversed, bold, italic, underlined, dim.
pub open spec fn addition_ops(last: Modifier, new: Modifier) -> Seq<TermOpV> {
    let s0 = Seq::<TermOpV>::empty();
    let s1 = if new.reversed && !last.reversed {
        s0.push(TermOpV::SetAttr(Attr::Reversed))
    } else {
        s0
    };
    let s2 = if new.bold && !last.bold {
        s1.push(TermOpV::SetAttr(Attr::Bold))
    } else {
        s1
    };
    let s3 = if new.italic && !last.italic {
        s2.push(TermOpV::SetAttr(Attr::Italic))
    } else {
        s2
    };
    let s4 = if new.underlined && !last.underlined {
        s3.push(TermOpV::SetAttr(Attr::Underlined))
    } else {
        s3
    };
    if new.dim && !last.dim {
        s4.push(TermOpV::SetAttr(Attr::Dim))
    } else {
        s4
    }
}

/// The attribute operations that take the terminal from modifier set `last`
/// to modifier set `new`: all removals, then all additions.
pub open spec fn modifier_transition_ops(last: Modifier, new: Modifier) -> Seq<TermOpV> {
    removal_ops(last, new) + addition_ops(last, new)
}

/// The color-set segment a command produces: a combined color set when its
/// colors differ from the running state, nothing otherwise.
pub open spec fn color_ops(cmd: DrawCommandV, st: StyleState) -> Seq<TermOpV> {
    if cmd.fg != st.fg || cmd.bg != st.bg {
        seq![TermOpV::SetColors(cmd.fg, cmd.bg)]
    } else {
        Seq::empty()
    }
}

/// The modifier segment a command produces: the full transition when its
/// flags differ from the running state, nothing otherwise.
pub open spec fn modifier_ops(cmd: DrawCommandV, st: StyleState) -> Seq<TermOpV> {
    if cmd.modifier != st.modifier {
        modifier_transition_ops(st.modifier, cmd.modifier)
    } else {
        Seq::empty()
    }
}

/// The operations one command produces against running state `st`:
/// a cursor move, the color-set segment, the modifier segment, then the
/// symbol text.
pub open spec fn ops_for_cmd(cmd: DrawCommandV, st: StyleState) -> Seq<TermOpV> {
    seq![TermOpV::MoveTo(cmd.x, cmd.y)] + color_ops(cmd, st) + modifier_ops(cmd, st) + seq![
        TermOpV::Print(cmd.symbol),
    ]
}

/// The running state after the first `n` commands: the last command's colors
/// and flags, whether or not anything had to be emitted for them.
pub open spec fn style_state_at(cmds: Seq<DrawCommandV>, n: int) -> StyleState {
    if n <= 0 {
        initial_style()
    } else {
        StyleState { fg: cmds[n - 1].fg, bg: cmds[n - 1].bg, modifier: cmds[n - 1].modifier }
    }
}

/// The operations for the first `n` commands.
pub open spec fn emit_upto(cmds: Seq<DrawCommandV>, n: int) -> Seq<TermOpV>
    decreases n,
{
    if n <= 0 {
        Seq::empty()
    } else {
        emit_upto(cmds, n - 1) + ops_for_cmd(cmds[n - 1], style_state_at(cmds, n - 1))
    }
}

/// The unconditional trailing full style reset: reset foreground, reset
/// background, reset all attributes.
pub open spec fn reset_ops() -> Seq<TermOpV> {
    seq![
        TermOpV::SetFg(Color::Reset),
        TermOpV::SetBg(Color::Reset),
        TermOpV::SetAttr(Attr::Reset),
    ]
}

/// The full operation sequence for a command sequence: each command's
/// operations in order, then the trailing style reset, emitted whether or
/// not any commands were present.
pub open spec fn emit_spec(cmds: Seq<DrawCommandV>) -> Seq<TermOpV> {
    emit_upto(cmds, cmds.len() as int) + reset_ops()
}

/// Append to `ops` the attribute toggles that clear what `new` drops.
#[verifier::rlimit(40)]
fn push_removals(ops: &mut Vec<TermOp>, last: Modifier, new: Modifier)
    ensures
        ops_view(final(ops)@) == ops_view(old(ops)@) + removal_ops(last, new),
{
    if last.reversed && !new.reversed {
        ops.push(TermOp::SetAttr(Attr::NoReversed));
    }
    if last.bold && !new.bold {
        ops.push(TermOp::SetAttr(Attr::NormalIntensity));
        if new.dim && !last.dim {
            ops.push(TermOp::SetAttr(Attr::Dim));
        }
    }
    if last.italic && !new.italic {
        ops.push(TermOp::SetAttr(Attr::NoItalic));
    }
    if last.underlined && !new.underlined {
        ops.push(TermOp::SetAttr(Attr::NoUnderline));
    }
    if last.dim && !new.dim {
        ops.push(TermOp::SetAttr(Attr::NormalIntensity));
    }
    proof {
        assert(ops_view(final(ops)@) =~= ops_view(old(ops)@) + removal_ops(last, new));
    }
}

/// Append to `ops` the attribute toggles that set what `new` adds.
#[verifier::rlimit(40)]
fn push_additions(ops: &mut Vec<TermOp>, last: Modifier, new: Modifier)
    ensures
        ops_view(final(ops)@) == ops_view(old(ops)@) + addition_ops(last, new),
{
    if new.reversed && !last.reversed {
        ops.push(TermOp::SetAttr(Attr::Reversed));
    }
    if new.bold && !last.bold {
        ops.push(TermOp::SetAttr(Attr::Bold));
    }
    if new.italic && !last.italic {
        ops.push(TermOp::SetAttr(Attr::Italic));
    }
    if new.underlined && !last.underlined {
        ops.push(TermOp::SetAttr(Attr::Underlined));
    }
    if new.dim && !last.dim {
        ops.push(TermOp::SetAttr(Attr::Dim));
    }
    proof {
        assert(ops_view(final(ops)@) =~= ops_view(old(ops)@) + addition_ops(last, new));
    }
}

/// Convert an ordered command sequence into the terminal operations that
/// realize it, starting from reset style state and ending with a full style
/// reset.
pub fn emit_commands(commands: &Vec<DrawCommand>) -> (r: Vec<TermOp>)
    ensures
        ops_view(r@) == emit_spec(cmds_view(commands@)),
{
    let ghost cv = cmds_view(commands@);

    let mut ops: Vec<TermOp> = Vec::new();
    let mut last_fg = Color::Reset;
    let mut last_bg = Color::Reset;
    let mut last_modifier = Modifier::empty();

    let n = commands.len();
    let mut i: usize = 0;
    while i < n
        invariant
            cv == cmds_view(commands@),
            n == commands@.len(),
            i <= n,
            ops_view(ops@) == emit_upto(cv, i as int),
            last_fg == style_state_at(cv, i as int).fg,
            last_bg == style_state_at(cv, i as int).bg,
            last_modifier == style_state_at(cv, i as int).modifier,
        decreases n - i,
    {
        let ghost st = style_state_at(cv, i as int);
        let ghost before = ops_view(ops@);
        let cmd = &commands[i];
        match cmd {
            DrawCommand::Cell { x, y, fg, bg, modifier, symbol } => {
                ops.push(TermOp::MoveTo(*x, *y));
                let ghost g1 = before + seq![TermOpV::MoveTo(cv[i as int].x, cv[i as int].y)];
                proof {
                    assert(ops_view(ops@) =~= g1);
                }
                if *fg != last_fg || *bg != last_bg {
                    ops.push(TermOp::SetColors(*fg, *bg));
                    last_fg = *fg;
                    last_bg = *bg;
                }
                let ghost g2 = g1 + color_ops(cv[i as int], st);
                proof {
                    assert(ops_view(ops@) =~= g2);
                }
                if *modifier != last_modifier {
                    push_modifier_transition(&mut ops, last_modifier, *modifier);
                    last_modifier = *modifier;
                }
                let ghost g3 = g2 + modifier_ops(cv[i as int], st);
                proof {
                    assert(ops_view(ops@) =~= g3);
                }
                ops.push(TermOp::Print(symbol.clone()));
                let ghost g4 = g3 + seq![TermOpV::Print(cv[i as int].symbol)];
                proof {
                    assert(ops_view(ops@) =~= g4);
                    assert(g4 =~= before + ops_for_cmd(cv[i as int], st));
                }
            },
        }
        i = i + 1;
    }
    ops.push(TermOp::SetFg(Color::Reset));
    ops.push(TermOp::SetBg(Color::Reset));
    ops.push(TermOp::SetAttr(Attr::Reset));
    proof {
        assert(ops_view(ops@) =~= emit_spec(cv));
    }
    ops
}

/// Append to `ops` the attribute toggles that take the terminal from
/// modifier set `last` to modifier set `new`: removals, then additions.
fn push_modifier_transition(ops: &mut Vec<TermOp>, last: Modifier, new: Modifier)
    ensures
        ops_view(final(ops)@) == ops_view(old(ops)@) + modifier_transition_ops(last, new),
{
    push_removals(ops, last, new);
    push_additions(ops, last, new);
    proof {
        assert(ops_view(final(ops)@) =~= ops_view(old(ops)@) + modifier_transition_ops(
            last,
            new,
        ));
    }
}

/// Two commands ask for the same foreground, background and modifiers.
pub open spec fn same_style(a: DrawCommandV, b: DrawCommandV) -> bool {
    a.fg == b.fg && a.bg == b.bg && a.modifier == b.modifier
}

/// Style minimization: in a run of three consecutive commands that share
/// identical foreground, background and modifiers, only the first can emit
/// a color-set or a modifier transition; the second and third produce just
/// a cursor move and the symbol text.
pub proof fn lemma_style_minimization(cmds: Seq<DrawCommandV>, i: int)
    requires
        0 <= i,
        i + 2 < cmds.len(),
        same_style(cmds[i], cmds[i + 1]),
        same_style(cmds[i + 1], cmds[i + 2]),
    ensures
        ops_for_cmd(cmds[i + 1], style_state_at(cmds, i + 1)) == seq![
            TermOpV::MoveTo(cmds[i + 1].x, cmds[i + 1].y),
            TermOpV::Print(cmds[i + 1].symbol),
        ],
        ops_for_cmd(cmds[i + 2], style_state_at(cmds, i + 2)) == seq![
            TermOpV::MoveTo(cmds[i + 2].x, cmds[i + 2].y),
            TermOpV::Print(cmds[i + 2].symbol),
        ],
{
    assert(ops_for_cmd(cmds[i + 1], style_state_at(cmds, i + 1)) =~= seq![
        TermOpV::MoveTo(cmds[i + 1].x, cmds[i + 1].y),
        TermOpV::Print(cmds[i + 1].symbol),
    ]);
    assert(ops_for_cmd(cmds[i + 2], style_state_at(cmds, i + 2)) =~= seq![
        TermOpV::MoveTo(cmds[i + 2].x, cmds[i + 2].y),
        TermOpV::Print(cmds[i + 2].symbol),
    ]);
}

} // verus!
