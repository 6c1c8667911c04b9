use vstd::prelude::*;
use crate::number::Number;
use crate::sprite_runtime::Coordinate;

verus! {

/// A red, green and blue color.
pub type Rgb = (u8, u8, u8);

/// The color a cleared pen draws with.
pub open spec fn initial_color() -> Rgb {
    (255, 0, 0)
}

/// A stroke: its points in order, its color and its size.
#[derive(Debug)]
pub struct Line {
    pub points: Vec<Coordinate>,
    pub color: Rgb,
    pub size: Number,
}

/// A stroke as the contracts see it.
pub struct LineView {
    pub points: Seq<Coordinate>,
    pub color: Rgb,
    pub size: Number,
}

impl Line {
    pub open spec fn view(&self) -> LineView {
        LineView { points: self.points@, color: self.color, size: self.size }
    }
}

pub open spec fn line_views(lines: Seq<Line>) -> Seq<LineView> {
    lines.map_values(|l: Line| l.view())
}

/// The strokes after a new one is begun: one that carries on from the last point, with the
/// same color and size, where the last stroke has points; none otherwise.
pub open spec fn with_new_line(lines: Seq<LineView>, down: bool) -> Seq<LineView> {
    let last = lines.last();
    if last.points.len() > 0 {
        lines.push(
            LineView {
                points: if down {
                    seq![last.points.last()]
                } else {
                    Seq::empty()
                },
                color: last.color,
                size: last.size,
            },
        )
    } else {
        lines
    }
}

/// The strokes of a sprite's pen, and whether it is down.
#[derive(Debug)]
pub struct Pen {
    lines: Vec<Line>,
    down: bool,
}

impl Pen {
    pub closed spec fn spec_lines(&self) -> Seq<LineView> {
        line_views(self.lines@)
    }

    pub closed spec fn spec_down(&self) -> bool {
        self.down
    }

    pub open spec fn wf(&self) -> bool {
        self.spec_lines().len() > 0 && self.spec_lines().last().size.wf()
    }

    /// A lifted pen with one empty stroke in the initial color, of size one.
    pub fn new() -> (r: Pen)
        ensures
            r.wf(),
            !r.spec_down(),
            r.spec_lines() =~= seq![
                LineView {
                    points: Seq::empty(),
                    color: initial_color(),
                    size: Number { mantissa: 1, scale: 0 },
                },
            ],
    {
        let mut lines: Vec<Line> = Vec::new();
        lines.push(Line { points: Vec::new(), color: (255, 0, 0), size: Number::from_int(1) });
        let r = Pen { lines, down: false };
        assert(r.spec_lines().len() == 1);
        r
    }

    pub fn color(&self) -> (r: Rgb)
        requires
            self.wf(),
        ensures
            r == self.spec_lines().last().color,
    {
        self.lines[self.lines.len() - 1].color
    }

    pub fn size(&self) -> (r: Number)
        requires
            self.wf(),
        ensures
            r == self.spec_lines().last().size,
    {
        self.lines[self.lines.len() - 1].size
    }

    /// The strokes drawn so far, the current one last.
    pub fn lines(&self) -> (r: &Vec<Line>)
        ensures
            line_views(r@) == self.spec_lines(),
    {
        &self.lines
    }

    pub fn is_down(&self) -> (r: bool)
        ensures
            r == self.spec_down(),
    {
        self.down
    }

    fn new_line(&mut self)
        requires
            old(self).wf(),
        ensures
            final(self).wf(),
            final(self).spec_down() == old(self).spec_down(),
            final(self).spec_lines() =~= with_new_line(old(self).spec_lines(), old(self).spec_down()),
    {
        let n = self.lines.len();
        let last = &self.lines[n - 1];
        let k = last.points.len();
        if k > 0 {
            let point = last.points[k - 1];
            let mut points: Vec<Coordinate> = Vec::new();
            if self.down {
                points.push(point);
            }
            let line = Line { points, color: last.color, size: last.size };
            self.lines.push(line);
            proof {
                assert(line.view().points =~= (if old(self).spec_down() {
                    seq![old(self).spec_lines().last().points.last()]
                } else {
                    Seq::empty()
                }));
                assert(line_views(self.lines@) =~= line_views(old(self).lines@).push(line.view()));
            }
        }
    }

    /// Adds `position` to the current stroke while the pen is down.
    pub fn set_position(&mut self, position: &Coordinate)
        requires
            old(self).wf(),
        ensures
            final(self).wf(),
            final(self).spec_down() == old(self).spec_down(),
            old(self).spec_down() ==> final(self).spec_lines() =~= old(self).spec_lines().drop_last().push(
                LineView {
                    points: old(self).spec_lines().last().points.push(*position),
                    ..old(self).spec_lines().last()
                },
            ),
            !old(self).spec_down() ==> final(self).spec_lines() == old(self).spec_lines(),
    {
        if self.down {
            let ghost before = self.lines@;
            let mut line = self.lines.pop().unwrap();
            line.points.push(*position);
            self.lines.push(line);
            proof {
                assert(line_views(self.lines@) =~= line_views(before).drop_last().push(line.view()));
            }
        }
    }

    /// Puts the pen down at `position`, beginning a stroke there.
    pub fn pen_down(&mut self, position: &Coordinate)
        requires
            old(self).wf(),
        ensures
            final(self).wf(),
            final(self).spec_down(),
            ({
                let begun = with_new_line(old(self).spec_lines(), old(self).spec_down());
                final(self).spec_lines() =~= begun.drop_last().push(
                    LineView { points: begun.last().points.push(*position), ..begun.last() },
                )
            }),
    {
        self.new_line();
        self.down = true;
        self.set_position(position);
    }

    /// Lifts the pen.
    pub fn pen_up(&mut self)
        requires
            old(self).wf(),
        ensures
            final(self).wf(),
            !final(self).spec_down(),
            final(self).spec_lines() =~= with_new_line(old(self).spec_lines(), old(self).spec_down()),
    {
        self.new_line();
        self.down = false;
    }

    /// Draws on in `color` from here.
    pub fn set_color(&mut self, color: Rgb)
        requires
            old(self).wf(),
        ensures
            final(self).wf(),
            final(self).spec_down() == old(self).spec_down(),
            ({
                let begun = with_new_line(old(self).spec_lines(), old(self).spec_down());
                final(self).spec_lines() =~= begun.drop_last().push(
                    LineView { color, ..begun.last() },
                )
            }),
    {
        self.new_line();
        let ghost before = self.lines@;
        let mut line = self.lines.pop().unwrap();
        line.color = color;
        self.lines.push(line);
        proof {
            assert(line_views(self.lines@) =~= line_views(before).drop_last().push(line.view()));
        }
    }

    /// Draws on with strokes of `size` from here.
    pub fn set_size(&mut self, size: Number)
        requires
            old(self).wf(),
            size.wf(),
        ensures
            final(self).wf(),
            final(self).spec_down() == old(self).spec_down(),
            ({
                let begun = with_new_line(old(self).spec_lines(), old(self).spec_down());
                final(self).spec_lines() =~= begun.drop_last().push(LineView { size, ..begun.last() })
            }),
    {
        self.new_line();
        let ghost before = self.lines@;
        let mut line = self.lines.pop().unwrap();
        line.size = size;
        self.lines.push(line);
        proof {
            assert(line_views(self.lines@) =~= line_views(before).drop_last().push(line.view()));
        }
    }

    /// Erases every stroke; the pen keeps its state but draws in the initial color and size.
    pub fn clear(&mut self)
        ensures
            final(self).wf(),
            final(self).spec_down() == old(self).spec_down(),
            final(self).spec_lines() =~= seq![
                LineView {
                    points: Seq::empty(),
                    color: initial_color(),
                    size: Number { mantissa: 1, scale: 0 },
                },
            ],
    {
        let down = self.down;
        *self = Pen::new();
        self.down = down;
    }
}

} // verus!
