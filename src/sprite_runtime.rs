use vstd::prelude::*;
use crate::error::Error;
use crate::number::Number;
use crate::pen::{Pen, Rgb};

verus! {

/// A point in sprite space.
///
/// Center = 0, 0; left = -x, right = +x; top = -y, bottom = +y.
#[derive(Copy, Clone, Debug, PartialEq, Eq, Structural)]
pub struct Coordinate {
    pub x: i16,
    pub y: i16,
}

impl Coordinate {
    pub fn new(x: i16, y: i16) -> (r: Self)
        ensures
            r.x == x,
            r.y == y,
    {
        Self { x, y }
    }

    pub open spec fn can_add(&self, other: &Self) -> bool {
        i16::MIN <= self.x + other.x <= i16::MAX && i16::MIN <= self.y + other.y <= i16::MAX
    }

    /// The point shifted by `other`.
    pub fn add(&self, other: &Self) -> (r: Self)
        requires
            self.can_add(other),
        ensures
            r.x == self.x + other.x,
            r.y == self.y + other.y,
    {
        Self { x: self.x + other.x, y: self.y + other.y }
    }

    pub fn x(&self) -> (r: i16)
        ensures
            r == self.x,
    {
        self.x
    }

    pub fn y(&self) -> (r: i16)
        ensures
            r == self.y,
    {
        self.y
    }
}

/// An axis-aligned rectangle given by its top-left corner and its size.
#[derive(Copy, Clone, Debug, PartialEq, Eq, Structural)]
pub struct Rectangle {
    pub top_left: Coordinate,
    pub size: Coordinate,
}

impl Rectangle {
    pub open spec fn spec_top_left(self) -> Coordinate {
        self.top_left
    }

    pub open spec fn spec_size(self) -> Coordinate {
        self.size
    }

    pub fn new(top_left: Coordinate, size: Coordinate) -> (r: Self)
        ensures
            r.spec_top_left() == top_left,
            r.spec_size() == size,
    {
        Self { top_left, size }
    }

    /// Whether the point lies inside, borders included.
    pub open spec fn spec_contains(self, c: Coordinate) -> bool {
        &&& c.x >= self.top_left.x
        &&& c.y >= self.top_left.y
        &&& c.x <= self.top_left.x + self.size.x
        &&& c.y <= self.top_left.y + self.size.y
    }

    /// Whether the two rectangles overlap, borders included.
    pub open spec fn spec_intersects(self, o: Rectangle) -> bool {
        !(self.top_left.x > o.top_left.x + o.size.x || self.top_left.x + self.size.x < o.top_left.x
            || self.top_left.y > o.top_left.y + o.size.y || self.top_left.y + self.size.y
            < o.top_left.y)
    }

    pub fn intersects(&self, o: &Rectangle) -> (r: bool)
        ensures
            r == self.spec_intersects(*o),
    {
        let (ax, ay) = (self.top_left.x as i32, self.top_left.y as i32);
        let (bx, by) = (o.top_left.x as i32, o.top_left.y as i32);
        !(ax > bx + o.size.x as i32 || ax + (self.size.x as i32) < bx || ay > by + o.size.y as i32
            || ay + (self.size.y as i32) < by)
    }

    /// Whether the rectangle reaches past the stage, which spans `STAGE_HALF_WIDTH` and
    /// `STAGE_HALF_HEIGHT` around the center.
    pub open spec fn spec_on_edge(self) -> bool {
        self.top_left.x < -STAGE_HALF_WIDTH || self.top_left.y < -STAGE_HALF_HEIGHT
            || self.top_left.x + self.size.x > STAGE_HALF_WIDTH || self.top_left.y + self.size.y
            > STAGE_HALF_HEIGHT
    }

    pub fn on_edge(&self) -> (r: bool)
        ensures
            r == self.spec_on_edge(),
    {
        (self.top_left.x as i32) < -(STAGE_HALF_WIDTH as i32) || (self.top_left.y as i32) < -(
        STAGE_HALF_HEIGHT as i32) || (self.top_left.x as i32) + (self.size.x as i32) > (
        STAGE_HALF_WIDTH as i32) || (self.top_left.y as i32) + (self.size.y as i32) > (
        STAGE_HALF_HEIGHT as i32)
    }

    pub fn contains(&self, coordinate: &Coordinate) -> (r: bool)
        ensures
            r == self.spec_contains(*coordinate),
    {
        coordinate.x >= self.top_left.x && coordinate.y >= self.top_left.y && (coordinate.x as i32)
            <= (self.top_left.x as i32) + (self.size.x as i32) && (coordinate.y as i32) <= (
        self.top_left.y as i32) + (self.size.y as i32)
    }
}

/// Half the stage's width.
pub const STAGE_HALF_WIDTH: i16 = 240;

/// Half the stage's height.
pub const STAGE_HALF_HEIGHT: i16 = 180;

/// The largest distance from the stage center that a sprite can be moved to.
pub const MAX_OFFSET: i16 = 16383;

pub open spec fn on_stage(c: Coordinate) -> bool {
    -MAX_OFFSET <= c.x <= MAX_OFFSET && -MAX_OFFSET <= c.y <= MAX_OFFSET
}

/// The mutable state of one sprite: where it stands, what it shows and says.
#[derive(Debug)]
pub struct SpriteRuntime {
    sprite_id: usize,
    is_a_clone: bool,
    need_redraw: bool,
    position: Coordinate,
    costume_sizes: Vec<Coordinate>,
    current_costume: usize,
    text: Text,
    hidden: bool,
    size_percent: Number,
    pen: Pen,
}

impl SpriteRuntime {
    pub closed spec fn spec_sprite_id(&self) -> usize {
        self.sprite_id
    }

    pub closed spec fn spec_is_a_clone(&self) -> bool {
        self.is_a_clone
    }

    pub closed spec fn spec_need_redraw(&self) -> bool {
        self.need_redraw
    }

    pub closed spec fn spec_position(&self) -> Coordinate {
        self.position
    }

    pub closed spec fn spec_costume_sizes(&self) -> Seq<Coordinate> {
        self.costume_sizes@
    }

    pub closed spec fn spec_current_costume(&self) -> usize {
        self.current_costume
    }

    pub closed spec fn spec_text(&self) -> Option<Seq<char>> {
        self.text.spec_text()
    }

    /// The block that posted the current speech bubble.
    pub closed spec fn spec_text_owner(&self) -> Seq<char> {
        self.text.id@
    }

    pub closed spec fn spec_hidden(&self) -> bool {
        self.hidden
    }

    pub closed spec fn spec_size_percent(&self) -> Number {
        self.size_percent
    }

    pub closed spec fn spec_pen(&self) -> Pen {
        self.pen
    }

    /// Costumes have a size of at least one and at most the stage's reach, the
    /// current one exists, and the sprite stands on the stage.
    pub open spec fn wf(&self) -> bool {
        &&& self.spec_costume_sizes().len() > 0
        &&& self.spec_current_costume() < self.spec_costume_sizes().len()
        &&& forall|i: int|
            0 <= i < self.spec_costume_sizes().len() ==> costume_size_ok(
                #[trigger] self.spec_costume_sizes()[i],
            )
        &&& on_stage(self.spec_position())
        &&& self.spec_size_percent().wf()
        &&& self.spec_pen().wf()
    }

    /// A sprite at the center, wearing its first costume, saying nothing.
    pub fn new(sprite_id: usize, is_a_clone: bool, costume_sizes: Vec<Coordinate>) -> (r: Self)
        requires
            costume_sizes@.len() > 0,
            forall|i: int| 0 <= i < costume_sizes@.len() ==> costume_size_ok(#[trigger] costume_sizes@[i]),
        ensures
            r.wf(),
            r.spec_sprite_id() == sprite_id,
            r.spec_is_a_clone() == is_a_clone,
            r.spec_need_redraw(),
            r.spec_position() == (Coordinate { x: 0, y: 0 }),
            r.spec_costume_sizes() == costume_sizes@,
            r.spec_current_costume() == 0,
            r.spec_text() is None,
            !r.spec_hidden(),
            r.spec_size_percent() == (Number { mantissa: 100, scale: 0 }),
    {
        Self {
            sprite_id,
            is_a_clone,
            need_redraw: true,
            position: Coordinate::new(0, 0),
            costume_sizes,
            current_costume: 0,
            text: Text { id: String::new(), text: None },
            hidden: false,
            size_percent: Number::from_int(100),
            pen: Pen::new(),
        }
    }

    pub fn need_redraw(&self) -> (r: bool)
        ensures
            r == self.spec_need_redraw(),
    {
        self.need_redraw
    }

    /// Called by the renderer once it has drawn the sprite.
    pub fn mark_drawn(&mut self)
        ensures
            !final(self).spec_need_redraw(),
            final(self).wf() == old(self).wf(),
            final(self).same_but_redraw(old(self)),
    {
        self.need_redraw = false;
    }

    /// Everything but the redraw flag is as in `o`.
    pub open spec fn same_but_redraw(&self, o: &Self) -> bool {
        &&& self.spec_sprite_id() == o.spec_sprite_id()
        &&& self.spec_is_a_clone() == o.spec_is_a_clone()
        &&& self.spec_position() == o.spec_position()
        &&& self.spec_costume_sizes() == o.spec_costume_sizes()
        &&& self.spec_current_costume() == o.spec_current_costume()
        &&& self.spec_text() == o.spec_text()
        &&& self.spec_hidden() == o.spec_hidden()
        &&& self.spec_size_percent() == o.spec_size_percent()
    }

    pub fn position(&self) -> (r: Coordinate)
        ensures
            r == self.spec_position(),
    {
        self.position
    }

    pub fn set_position(&mut self, position: &Coordinate)
        requires
            old(self).wf(),
            on_stage(*position),
        ensures
            final(self).spec_need_redraw(),
            final(self).spec_position() == *position,
            final(self).wf(),
            final(self).spec_sprite_id() == old(self).spec_sprite_id(),
            final(self).spec_is_a_clone() == old(self).spec_is_a_clone(),
            final(self).spec_costume_sizes() == old(self).spec_costume_sizes(),
            final(self).spec_current_costume() == old(self).spec_current_costume(),
            final(self).spec_text() == old(self).spec_text(),
            final(self).spec_hidden() == old(self).spec_hidden(),
            final(self).spec_size_percent() == old(self).spec_size_percent(),
            final(self).spec_pen().spec_down() == old(self).spec_pen().spec_down(),
            old(self).spec_pen().spec_down() ==> final(self).spec_pen().spec_lines().last().points
                == old(self).spec_pen().spec_lines().last().points.push(*position),
    {
        self.need_redraw = true;
        self.position = *position;
        self.pen.set_position(position);
    }

    /// Switches to the costume at `index`; fails where there is none.
    pub fn set_costume_index(&mut self, index: usize) -> (r: Result<(), Error>)
        ensures
            r is Ok <==> index < old(self).spec_costume_sizes().len(),
            r is Err ==> *final(self) == *old(self),
            r matches Err(e) ==> e == (Error::CostumeOutOfRange { index }),
            r is Ok ==> final(self).spec_current_costume() == index && final(self).spec_need_redraw()
                && final(self).spec_position() == old(self).spec_position()
                && final(self).spec_costume_sizes() == old(self).spec_costume_sizes()
                && final(self).spec_text() == old(self).spec_text() && final(self).spec_hidden()
                == old(self).spec_hidden() && final(self).spec_is_a_clone() == old(
                self,
            ).spec_is_a_clone() && final(self).spec_size_percent() == old(self).spec_size_percent()
                && (old(self).wf() ==> final(self).wf()),
    {
        if index >= self.costume_sizes.len() {
            return Err(Error::CostumeOutOfRange { index });
        }
        self.need_redraw = true;
        self.current_costume = index;
        Ok(())
    }

    /// Shows the text of `text` in a speech bubble; a removal takes effect only where the
    /// same block posted the bubble.
    pub fn say(&mut self, text: Text)
        ensures
            final(self).spec_need_redraw(),
            (text.text is Some || text.id@ == old(self).spec_text_owner()) ==> final(self).spec_text()
                == text.spec_text() && final(self).spec_text_owner() == text.id@,
            !(text.text is Some || text.id@ == old(self).spec_text_owner()) ==> final(self).spec_text()
                == old(self).spec_text() && final(self).spec_text_owner()
                == old(self).spec_text_owner(),
            final(self).wf() == old(self).wf(),
            final(self).spec_position() == old(self).spec_position(),
            final(self).spec_is_a_clone() == old(self).spec_is_a_clone(),
            final(self).spec_hidden() == old(self).spec_hidden(),
            final(self).spec_size_percent() == old(self).spec_size_percent(),
            final(self).spec_current_costume() == old(self).spec_current_costume(),
    {
        self.need_redraw = true;
        self.text.replace(text);
    }

    /// What the speech bubble says, if there is one.
    pub fn text(&self) -> (r: Option<String>)
        ensures
            r is Some == self.spec_text() is Some,
            r matches Some(t) ==> self.spec_text() == Some(t@),
    {
        match &self.text.text {
            Some(t) => Some(t.clone()),
            None => None,
        }
    }

    pub fn set_hide(&mut self, status: HideStatus)
        ensures
            final(self).spec_need_redraw(),
            final(self).spec_hidden() == (status == HideStatus::Hide),
            old(self).wf() ==> final(self).wf(),
            final(self).spec_position() == old(self).spec_position(),
            final(self).spec_text() == old(self).spec_text(),
            final(self).spec_is_a_clone() == old(self).spec_is_a_clone(),
            final(self).spec_size_percent() == old(self).spec_size_percent(),
    {
        match status {
            HideStatus::Hide => self.set_hidden(true),
            HideStatus::Show => self.set_hidden(false),
        }
    }

    pub fn set_hidden(&mut self, hidden: bool)
        ensures
            final(self).spec_need_redraw(),
            final(self).spec_hidden() == hidden,
            final(self).wf() == old(self).wf(),
            final(self).spec_position() == old(self).spec_position(),
            final(self).spec_text() == old(self).spec_text(),
            final(self).spec_is_a_clone() == old(self).spec_is_a_clone(),
            final(self).spec_size_percent() == old(self).spec_size_percent(),
    {
        self.need_redraw = true;
        self.hidden = hidden;
    }

    pub fn hidden(&self) -> (r: bool)
        ensures
            r == self.spec_hidden(),
    {
        self.hidden
    }

    /// Sets the size, in percent of the costume's own.
    pub fn set_size_percent(&mut self, size: Number)
        requires
            size.wf(),
        ensures
            final(self).spec_need_redraw(),
            final(self).spec_size_percent() == size,
            old(self).wf() ==> final(self).wf(),
            final(self).spec_position() == old(self).spec_position(),
            final(self).spec_text() == old(self).spec_text(),
            final(self).spec_is_a_clone() == old(self).spec_is_a_clone(),
            final(self).spec_hidden() == old(self).spec_hidden(),
    {
        self.need_redraw = true;
        self.size_percent = size;
    }

    pub fn size_percent(&self) -> (r: Number)
        ensures
            r == self.spec_size_percent(),
    {
        self.size_percent
    }

    /// Everything but the pen and the redraw flag is as in `o`.
    pub open spec fn same_but_pen(&self, o: &Self) -> bool {
        &&& self.spec_sprite_id() == o.spec_sprite_id()
        &&& self.spec_is_a_clone() == o.spec_is_a_clone()
        &&& self.spec_position() == o.spec_position()
        &&& self.spec_costume_sizes() == o.spec_costume_sizes()
        &&& self.spec_current_costume() == o.spec_current_costume()
        &&& self.spec_text() == o.spec_text()
        &&& self.spec_text_owner() == o.spec_text_owner()
        &&& self.spec_hidden() == o.spec_hidden()
        &&& self.spec_size_percent() == o.spec_size_percent()
    }

    pub fn pen(&self) -> (r: &Pen)
        ensures
            *r == self.spec_pen(),
    {
        &self.pen
    }

    /// Puts the pen down where the sprite stands.
    pub fn pen_down(&mut self)
        requires
            old(self).wf(),
        ensures
            final(self).wf(),
            final(self).spec_need_redraw(),
            final(self).same_but_pen(old(self)),
            final(self).spec_pen().spec_down(),
            ({
                let p = old(self).spec_pen();
                let begun = crate::pen::with_new_line(p.spec_lines(), p.spec_down());
                final(self).spec_pen().spec_lines() =~= begun.drop_last().push(
                    crate::pen::LineView {
                        points: begun.last().points.push(old(self).spec_position()),
                        ..begun.last()
                    },
                )
            }),
    {
        self.need_redraw = true;
        let position = self.position;
        self.pen.pen_down(&position);
    }

    pub fn pen_up(&mut self)
        requires
            old(self).wf(),
        ensures
            final(self).wf(),
            final(self).spec_need_redraw(),
            final(self).same_but_pen(old(self)),
            !final(self).spec_pen().spec_down(),
            final(self).spec_pen().spec_lines() =~= crate::pen::with_new_line(
                old(self).spec_pen().spec_lines(),
                old(self).spec_pen().spec_down(),
            ),
    {
        self.need_redraw = true;
        self.pen.pen_up();
    }

    /// Erases the pen's strokes.
    pub fn pen_clear(&mut self)
        requires
            old(self).wf(),
        ensures
            final(self).wf(),
            final(self).spec_need_redraw(),
            final(self).same_but_pen(old(self)),
            final(self).spec_pen().spec_down() == old(self).spec_pen().spec_down(),
            final(self).spec_pen().spec_lines().len() == 1,
            final(self).spec_pen().spec_lines()[0].points.len() == 0,
    {
        self.need_redraw = true;
        self.pen.clear();
    }

    pub fn set_pen_color(&mut self, color: Rgb)
        requires
            old(self).wf(),
        ensures
            final(self).wf(),
            final(self).spec_need_redraw(),
            final(self).same_but_pen(old(self)),
            final(self).spec_pen().spec_down() == old(self).spec_pen().spec_down(),
            final(self).spec_pen().spec_lines().last().color == color,
    {
        self.need_redraw = true;
        self.pen.set_color(color);
    }

    pub fn set_pen_size(&mut self, size: Number)
        requires
            old(self).wf(),
            size.wf(),
        ensures
            final(self).wf(),
            final(self).spec_need_redraw(),
            final(self).same_but_pen(old(self)),
            final(self).spec_pen().spec_down() == old(self).spec_pen().spec_down(),
            final(self).spec_pen().spec_lines().last().size == size,
    {
        self.need_redraw = true;
        self.pen.set_size(size);
    }

    pub fn sprite_id(&self) -> (r: usize)
        ensures
            r == self.spec_sprite_id(),
    {
        self.sprite_id
    }

    pub fn is_a_clone(&self) -> (r: bool)
        ensures
            r == self.spec_is_a_clone(),
    {
        self.is_a_clone
    }

    /// The rectangle the current costume covers, centered on the sprite.
    pub open spec fn spec_rectangle(&self) -> Rectangle {
        let size = self.spec_costume_sizes()[self.spec_current_costume() as int];
        Rectangle {
            top_left: Coordinate {
                x: (self.spec_position().x - size.x / 2) as i16,
                y: (self.spec_position().y - size.y / 2) as i16,
            },
            size,
        }
    }

    pub fn rectangle(&self) -> (r: Rectangle)
        requires
            self.wf(),
        ensures
            r == self.spec_rectangle(),
    {
        let size = self.costume_sizes[self.current_costume];
        assert(costume_size_ok(self.costume_sizes@[self.current_costume as int]));
        let offset = Coordinate::new(0 - size.x / 2, 0 - size.y / 2);
        Rectangle::new(self.position.add(&offset), size)
    }
}

/// Whether a sprite is drawn.
#[derive(Debug, Copy, Clone, PartialEq, Eq, Structural)]
pub enum HideStatus {
    Hide,
    Show,
}

/// What a speech bubble says, and the block that posted it. Text can only be hidden by
/// the block that posted it; any block can replace it with new text.
#[derive(Debug, Clone)]
pub struct Text {
    pub id: String,
    pub text: Option<String>,
}

impl Text {
    pub open spec fn spec_text(&self) -> Option<Seq<char>> {
        match self.text {
            Some(t) => Some(t@),
            None => None,
        }
    }

    /// Takes `other` where it brings text, or where it comes from the same block.
    pub fn replace(&mut self, other: Text)
        ensures
            (other.text is Some || other.id@ == old(self).id@) ==> final(self).id@ == other.id@
                && final(self).spec_text() == other.spec_text(),
            !(other.text is Some || other.id@ == old(self).id@) ==> final(self).id@ == old(self).id@
                && final(self).spec_text() == old(self).spec_text(),
    {
        if other.text.is_some() || self.id == other.id {
            *self = other;
        }
    }
}

/// A costume is between 0 and `MAX_OFFSET` pixels in each direction.
pub open spec fn costume_size_ok(c: Coordinate) -> bool {
    0 <= c.x <= MAX_OFFSET && 0 <= c.y <= MAX_OFFSET
}

} // verus!
