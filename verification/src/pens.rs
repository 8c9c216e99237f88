//! Drawing commands and the recorders that consume them.

use vstd::prelude::*;

verus! {

/// One path-construction command of a glyph outline. Every coordinate is the
/// IEEE-754 single-precision bit pattern of a value in font design units.
#[derive(Clone, Copy, Debug, PartialEq, Eq)]
pub enum DrawCommand {
    MoveTo { x: u32, y: u32 },
    LineTo { x: u32, y: u32 },
    QuadTo { cx0: u32, cy0: u32, x: u32, y: u32 },
    CurveTo { cx0: u32, cy0: u32, cx1: u32, cy1: u32, x: u32, y: u32 },
    Close,
}

/// The five kinds of drawing command, in tally order.
#[derive(Clone, Copy, Debug, PartialEq, Eq)]
pub enum CommandKind {
    MoveTo,
    LineTo,
    QuadTo,
    CurveTo,
    Close,
}

/// A coordinate pair in font design units, as IEEE-754 single-precision bit
/// patterns, with the units per em of its font: the point normalised to the
/// em square is each coordinate divided by `units_per_em`.
#[derive(Clone, Copy, Debug, PartialEq, Eq)]
pub struct OutlinePoint {
    pub x: u32,
    pub y: u32,
    pub units_per_em: u16,
}

impl DrawCommand {
    /// Whether this command draws a curve: `QuadTo` or `CurveTo`.
    pub open spec fn is_curve(self) -> bool {
        self is QuadTo || self is CurveTo
    }

    /// The kind of this command.
    pub open spec fn kind(self) -> CommandKind {
        match self {
            DrawCommand::MoveTo { .. } => CommandKind::MoveTo,
            DrawCommand::LineTo { .. } => CommandKind::LineTo,
            DrawCommand::QuadTo { .. } => CommandKind::QuadTo,
            DrawCommand::CurveTo { .. } => CommandKind::CurveTo,
            DrawCommand::Close => CommandKind::Close,
        }
    }

    /// The coordinate pairs this command carries in a font of `units_per_em`
    /// units per em, control points first and the end point last. `Close`
    /// carries none.
    pub open spec fn points(self, units_per_em: u16) -> Seq<OutlinePoint> {
        match self {
            DrawCommand::MoveTo { x, y } => seq![OutlinePoint { x, y, units_per_em }],
            DrawCommand::LineTo { x, y } => seq![OutlinePoint { x, y, units_per_em }],
            DrawCommand::QuadTo { cx0, cy0, x, y } => seq![
                OutlinePoint { x: cx0, y: cy0, units_per_em },
                OutlinePoint { x, y, units_per_em },
            ],
            DrawCommand::CurveTo { cx0, cy0, cx1, cy1, x, y } => seq![
                OutlinePoint { x: cx0, y: cy0, units_per_em },
                OutlinePoint { x: cx1, y: cy1, units_per_em },
                OutlinePoint { x, y, units_per_em },
            ],
            DrawCommand::Close => seq![],
        }
    }
}

impl CommandKind {
    /// The slot of this kind in a five-slot tally.
    pub open spec fn slot(self) -> int {
        match self {
            CommandKind::MoveTo => 0,
            CommandKind::LineTo => 1,
            CommandKind::QuadTo => 2,
            CommandKind::CurveTo => 3,
            CommandKind::Close => 4,
        }
    }
}

/// How many commands of `commands` have the kind `kind`.
pub open spec fn kind_count(commands: Seq<DrawCommand>, kind: CommandKind) -> nat
    decreases commands.len(),
{
    if commands.len() == 0 {
        0
    } else {
        kind_count(commands.drop_last(), kind) + if commands.last().kind() == kind {
            1nat
        } else {
            0nat
        }
    }
}

/// All coordinate pairs of `commands`, in command order, for a font of
/// `units_per_em` units per em.
pub open spec fn command_points(commands: Seq<DrawCommand>, units_per_em: u16) -> Seq<OutlinePoint>
    decreases commands.len(),
{
    if commands.len() == 0 {
        seq![]
    } else {
        command_points(commands.drop_last(), units_per_em) + commands.last().points(units_per_em)
    }
}

/// `n` clamped to the largest `u32`.
pub open spec fn saturate_u32(n: int) -> u32 {
    if n >= u32::MAX { u32::MAX } else { n as u32 }
}

/// `n` clamped to the largest `u64`.
pub open spec fn saturate_u64(n: int) -> u64 {
    if n >= u64::MAX { u64::MAX } else { n as u64 }
}

/// The five kind counts of any command sequence add up to its length.
pub proof fn lemma_kind_counts_partition(commands: Seq<DrawCommand>)
    ensures
        kind_count(commands, CommandKind::MoveTo) + kind_count(commands, CommandKind::LineTo)
            + kind_count(commands, CommandKind::QuadTo) + kind_count(
            commands,
            CommandKind::CurveTo,
        ) + kind_count(commands, CommandKind::Close) == commands.len(),
    decreases commands.len(),
{
    if commands.len() > 0 {
        lemma_kind_counts_partition(commands.drop_last());
    }
}

/// Recorder that gathers the coordinate pairs of every command it is given,
/// each tagged with the units per em the recorder was made with.
pub struct PointCollector {
    units_per_em: u16,
    points: Vec<OutlinePoint>,
}

impl PointCollector {
    /// The points gathered so far, oldest first.
    pub closed spec fn view(&self) -> Seq<OutlinePoint> {
        self.points@
    }

    /// The units per em that every gathered point is tagged with.
    pub closed spec fn units_per_em(&self) -> u16 {
        self.units_per_em
    }

    /// A collector for a font of `units_per_em` units per em, holding no
    /// points.
    pub fn new(units_per_em: u16) -> (pen: Self)
        ensures
            pen@ == Seq::<OutlinePoint>::empty(),
            pen.units_per_em() == units_per_em,
    {
        PointCollector { units_per_em, points: Vec::new() }
    }

    /// Hands out the gathered points.
    pub fn into_points(self) -> (points: Vec<OutlinePoint>)
        ensures
            points@ == self@,
    {
        self.points
    }

    fn push(&mut self, x: u32, y: u32)
        ensures
            final(self).units_per_em() == old(self).units_per_em(),
            final(self)@ == old(self)@.push(
                OutlinePoint { x, y, units_per_em: old(self).units_per_em() },
            ),
    {
        self.points.push(OutlinePoint { x, y, units_per_em: self.units_per_em });
    }

    /// Records a `MoveTo`.
    pub fn move_to(&mut self, x: u32, y: u32)
        ensures
            final(self).units_per_em() == old(self).units_per_em(),
            final(self)@ == old(self)@ + (DrawCommand::MoveTo { x, y }).points(
                old(self).units_per_em(),
            ),
    {
        self.push(x, y);
        assert(self@ =~= old(self)@ + (DrawCommand::MoveTo { x, y }).points(
            old(self).units_per_em(),
        ));
    }

    /// Records a `LineTo`.
    pub fn line_to(&mut self, x: u32, y: u32)
        ensures
            final(self).units_per_em() == old(self).units_per_em(),
            final(self)@ == old(self)@ + (DrawCommand::LineTo { x, y }).points(
                old(self).units_per_em(),
            ),
    {
        self.push(x, y);
        assert(self@ =~= old(self)@ + (DrawCommand::LineTo { x, y }).points(
            old(self).units_per_em(),
        ));
    }

    /// Records a `QuadTo`.
    pub fn quad_to(&mut self, cx0: u32, cy0: u32, x: u32, y: u32)
        ensures
            final(self).units_per_em() == old(self).units_per_em(),
            final(self)@ == old(self)@ + (DrawCommand::QuadTo { cx0, cy0, x, y }).points(
                old(self).units_per_em(),
            ),
    {
        self.push(cx0, cy0);
        self.push(x, y);
        assert(self@ =~= old(self)@ + (DrawCommand::QuadTo { cx0, cy0, x, y }).points(
            old(self).units_per_em(),
        ));
    }

    /// Records a `CurveTo`.
    pub fn curve_to(&mut self, cx0: u32, cy0: u32, cx1: u32, cy1: u32, x: u32, y: u32)
        ensures
            final(self).units_per_em() == old(self).units_per_em(),
            final(self)@ == old(self)@ + (DrawCommand::CurveTo {
                cx0,
                cy0,
                cx1,
                cy1,
                x,
                y,
            }).points(old(self).units_per_em()),
    {
        self.push(cx0, cy0);
        self.push(cx1, cy1);
        self.push(x, y);
        assert(self@ =~= old(self)@ + (DrawCommand::CurveTo {
            cx0,
            cy0,
            cx1,
            cy1,
            x,
            y,
        }).points(old(self).units_per_em()));
    }

    /// Records a `Close`.
    pub fn close(&mut self)
        ensures
            *final(self) == *old(self),
    {
    }

    /// Feeds one command to the collector.
    pub fn record(&mut self, command: DrawCommand)
        ensures
            final(self).units_per_em() == old(self).units_per_em(),
            final(self)@ == old(self)@ + command.points(old(self).units_per_em()),
    {
        match command {
            DrawCommand::MoveTo { x, y } => self.move_to(x, y),
            DrawCommand::LineTo { x, y } => self.line_to(x, y),
            DrawCommand::QuadTo { cx0, cy0, x, y } => self.quad_to(cx0, cy0, x, y),
            DrawCommand::CurveTo { cx0, cy0, cx1, cy1, x, y } => self.curve_to(
                cx0,
                cy0,
                cx1,
                cy1,
                x,
                y,
            ),
            DrawCommand::Close => {
                self.close();
                assert(self@ =~= old(self)@ + command.points(old(self).units_per_em()));
            },
        }
    }

    /// Feeds a whole outline to the collector, in order.
    pub fn record_all(&mut self, commands: &Vec<DrawCommand>)
        ensures
            final(self).units_per_em() == old(self).units_per_em(),
            final(self)@ == old(self)@ + command_points(commands@, old(self).units_per_em()),
    {
        let mut i: usize = 0;
        let ghost unit = self.units_per_em();
        assert(old(self)@ + command_points(commands@.take(0), unit) =~= old(self)@);
        while i < commands.len()
            invariant
                i <= commands.len(),
                unit == old(self).units_per_em(),
                self.units_per_em() == unit,
                self@ == old(self)@ + command_points(commands@.take(i as int), unit),
            decreases commands.len() - i,
        {
            self.record(commands[i]);
            proof {
                let next = commands@.take(i + 1);
                assert(next.drop_last() =~= commands@.take(i as int));
                assert(next.last() == commands@[i as int]);
                assert(self@ =~= old(self)@ + command_points(next, unit));
            }
            i += 1;
        }
        assert(commands@.take(i as int) =~= commands@);
    }
}

/// Recorder that counts every command it is given, `Close` included, in one
/// counter that stops at the largest `u32`.
pub struct CommandCountPen {
    count: u32,
}

impl CommandCountPen {
    /// The number of commands counted so far.
    pub closed spec fn view(&self) -> u32 {
        self.count
    }

    /// A pen that has counted nothing.
    pub fn new() -> (pen: Self)
        ensures
            pen@ == 0,
    {
        CommandCountPen { count: 0 }
    }

    /// Hands out the count.
    pub fn into_count(self) -> (count: u32)
        ensures
            count == self@,
    {
        self.count
    }

    /// Counts one command.
    pub fn hit(&mut self)
        ensures
            final(self)@ == saturate_u32(old(self)@ + 1),
    {
        self.count = self.count.saturating_add(1);
    }

    /// Records a `MoveTo`.
    pub fn move_to(&mut self, _x: u32, _y: u32)
        ensures
            final(self)@ == saturate_u32(old(self)@ + 1),
    {
        self.hit();
    }

    /// Records a `LineTo`.
    pub fn line_to(&mut self, _x: u32, _y: u32)
        ensures
            final(self)@ == saturate_u32(old(self)@ + 1),
    {
        self.hit();
    }

    /// Records a `QuadTo`.
    pub fn quad_to(&mut self, _cx0: u32, _cy0: u32, _x: u32, _y: u32)
        ensures
            final(self)@ == saturate_u32(old(self)@ + 1),
    {
        self.hit();
    }

    /// Records a `CurveTo`.
    pub fn curve_to(&mut self, _cx0: u32, _cy0: u32, _cx1: u32, _cy1: u32, _x: u32, _y: u32)
        ensures
            final(self)@ == saturate_u32(old(self)@ + 1),
    {
        self.hit();
    }

    /// Records a `Close`.
    pub fn close(&mut self)
        ensures
            final(self)@ == saturate_u32(old(self)@ + 1),
    {
        self.hit();
    }

    /// Feeds one command to the pen.
    pub fn record(&mut self, command: DrawCommand)
        ensures
            final(self)@ == saturate_u32(old(self)@ + 1),
    {
        match command {
            DrawCommand::MoveTo { x, y } => self.move_to(x, y),
            DrawCommand::LineTo { x, y } => self.line_to(x, y),
            DrawCommand::QuadTo { cx0, cy0, x, y } => self.quad_to(cx0, cy0, x, y),
            DrawCommand::CurveTo { cx0, cy0, cx1, cy1, x, y } => self.curve_to(
                cx0,
                cy0,
                cx1,
                cy1,
                x,
                y,
            ),
            DrawCommand::Close => self.close(),
        }
    }

    /// Feeds a whole outline to the pen.
    pub fn record_all(&mut self, commands: &Vec<DrawCommand>)
        ensures
            final(self)@ == saturate_u32(old(self)@ + commands@.len()),
    {
        let mut i: usize = 0;
        while i < commands.len()
            invariant
                i <= commands.len(),
                self@ == saturate_u32(old(self)@ + i),
            decreases commands.len() - i,
        {
            self.record(commands[i]);
            i += 1;
        }
    }
}

impl Default for CommandCountPen {
    fn default() -> (pen: Self)
        ensures
            pen@ == 0,
    {
        CommandCountPen::new()
    }
}

impl Default for CommandBreakdownPen {
    fn default() -> (pen: Self)
        ensures
            pen@ == seq![0u64, 0u64, 0u64, 0u64, 0u64],
    {
        CommandBreakdownPen::new()
    }
}

/// Recorder that keeps one counter per command kind, each stopping at the
/// largest `u64`.
pub struct CommandBreakdownPen {
    move_to: u64,
    line_to: u64,
    quad_to: u64,
    curve_to: u64,
    close: u64,
}

impl CommandBreakdownPen {
    /// The five counters, in tally order.
    pub closed spec fn view(&self) -> Seq<u64> {
        seq![self.move_to, self.line_to, self.quad_to, self.curve_to, self.close]
    }

    /// The tally `before` after one more command of kind `kind`.
    pub open spec fn bumped(before: Seq<u64>, kind: CommandKind) -> Seq<u64> {
        before.update(kind.slot(), saturate_u64(before[kind.slot()] + 1))
    }

    /// The tally `before` after the commands `commands`.
    pub open spec fn advanced(before: Seq<u64>, commands: Seq<DrawCommand>) -> Seq<u64> {
        Seq::new(5, |k: int| saturate_u64(before[k] + kind_count(commands, kind_of_slot(k))))
    }

    /// A pen whose counters are all zero.
    pub fn new() -> (pen: Self)
        ensures
            pen@ == seq![0u64, 0u64, 0u64, 0u64, 0u64],
    {
        CommandBreakdownPen { move_to: 0, line_to: 0, quad_to: 0, curve_to: 0, close: 0 }
    }

    /// The five counters: MoveTo, LineTo, QuadTo, CurveTo, Close.
    pub fn counts(&self) -> (counts: [u64; 5])
        ensures
            counts@ == self@,
    {
        let counts = [self.move_to, self.line_to, self.quad_to, self.curve_to, self.close];
        assert(counts@ =~= self@);
        counts
    }

    /// Records a `MoveTo`.
    pub fn move_to(&mut self, _x: u32, _y: u32)
        ensures
            final(self)@ == Self::bumped(old(self)@, CommandKind::MoveTo),
    {
        self.move_to = self.move_to.saturating_add(1);
        assert(self@ =~= Self::bumped(old(self)@, CommandKind::MoveTo));
    }

    /// Records a `LineTo`.
    pub fn line_to(&mut self, _x: u32, _y: u32)
        ensures
            final(self)@ == Self::bumped(old(self)@, CommandKind::LineTo),
    {
        self.line_to = self.line_to.saturating_add(1);
        assert(self@ =~= Self::bumped(old(self)@, CommandKind::LineTo));
    }

    /// Records a `QuadTo`.
    pub fn quad_to(&mut self, _cx0: u32, _cy0: u32, _x: u32, _y: u32)
        ensures
            final(self)@ == Self::bumped(old(self)@, CommandKind::QuadTo),
    {
        self.quad_to = self.quad_to.saturating_add(1);
        assert(self@ =~= Self::bumped(old(self)@, CommandKind::QuadTo));
    }

    /// Records a `CurveTo`.
    pub fn curve_to(&mut self, _cx0: u32, _cy0: u32, _cx1: u32, _cy1: u32, _x: u32, _y: u32)
        ensures
            final(self)@ == Self::bumped(old(self)@, CommandKind::CurveTo),
    {
        self.curve_to = self.curve_to.saturating_add(1);
        assert(self@ =~= Self::bumped(old(self)@, CommandKind::CurveTo));
    }

    /// Records a `Close`.
    pub fn close(&mut self)
        ensures
            final(self)@ == Self::bumped(old(self)@, CommandKind::Close),
    {
        self.close = self.close.saturating_add(1);
        assert(self@ =~= Self::bumped(old(self)@, CommandKind::Close));
    }

    /// Feeds one command to the pen.
    pub fn record(&mut self, command: DrawCommand)
        ensures
            final(self)@ == Self::bumped(old(self)@, command.kind()),
    {
        match command {
            DrawCommand::MoveTo { x, y } => self.move_to(x, y),
            DrawCommand::LineTo { x, y } => self.line_to(x, y),
            DrawCommand::QuadTo { cx0, cy0, x, y } => self.quad_to(cx0, cy0, x, y),
            DrawCommand::CurveTo { cx0, cy0, cx1, cy1, x, y } => self.curve_to(
                cx0,
                cy0,
                cx1,
                cy1,
                x,
                y,
            ),
            DrawCommand::Close => self.close(),
        }
    }

    /// Feeds a whole outline to the pen.
    pub fn record_all(&mut self, commands: &Vec<DrawCommand>)
        ensures
            final(self)@ == Self::advanced(old(self)@, commands@),
    {
        let mut i: usize = 0;
        assert(self@ =~= Self::advanced(old(self)@, commands@.take(0)));
        while i < commands.len()
            invariant
                i <= commands.len(),
                self@.len() == 5,
                old(self)@.len() == 5,
                self@ == Self::advanced(old(self)@, commands@.take(i as int)),
            decreases commands.len() - i,
        {
            let ghost before = self@;
            self.record(commands[i]);
            proof {
                let next = commands@.take(i + 1);
                assert(next.drop_last() =~= commands@.take(i as int));
                assert(next.last() == commands@[i as int]);
                assert(self@ =~= Self::advanced(old(self)@, next));
            }
            i += 1;
        }
        assert(commands@.take(i as int) =~= commands@);
    }
}

/// The command kind that a tally slot counts.
pub open spec fn kind_of_slot(slot: int) -> CommandKind {
    if slot == 0 {
        CommandKind::MoveTo
    } else if slot == 1 {
        CommandKind::LineTo
    } else if slot == 2 {
        CommandKind::QuadTo
    } else if slot == 3 {
        CommandKind::CurveTo
    } else {
        CommandKind::Close
    }
}

} // verus!
