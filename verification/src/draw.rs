//! Drawing primitives and the append-only canvas a step emits into.

use vstd::prelude::*;

verus! {

use crate::geom::{V2, GV2, Rect, GRect};

/// Mathematical model of an RGBA color; channels in thousandths.
pub ghost struct GColor {
    pub r: int,
    pub g: int,
    pub b: int,
    pub a: int,
}

/// RGBA color with channels in thousandths (1000 is full intensity).
#[derive(Clone, Copy, PartialEq, Eq, Structural, Debug)]
pub struct Color {
    pub r: i64,
    pub g: i64,
    pub b: i64,
    pub a: i64,
}

impl View for Color {
    type V = GColor;

    open spec fn view(&self) -> GColor {
        GColor { r: self.r as int, g: self.g as int, b: self.b as int, a: self.a as int }
    }
}

/// Mathematical model of one drawing primitive.
pub ghost enum GPrim {
    Rect { rect: GRect, depth: int, color: GColor },
    Circle { center: GV2, radius: int, depth: int, color: GColor },
    CircleArc { center: GV2, radius: int, dir: GV2, degrees: int, depth: int, color: GColor },
}

/// One drawing primitive.  `depth` is in hundredths and orders compositing;
/// list order does not.
#[derive(Clone, Copy, PartialEq, Eq, Structural, Debug)]
pub enum Prim {
    Rect { rect: Rect, depth: i64, color: Color },
    Circle { center: V2, radius: i64, depth: i64, color: Color },
    CircleArc { center: V2, radius: i64, dir: V2, degrees: i64, depth: i64, color: Color },
}

impl View for Prim {
    type V = GPrim;

    open spec fn view(&self) -> GPrim {
        match *self {
            Prim::Rect { rect, depth, color } => GPrim::Rect {
                rect: rect@,
                depth: depth as int,
                color: color@,
            },
            Prim::Circle { center, radius, depth, color } => GPrim::Circle {
                center: center@,
                radius: radius as int,
                depth: depth as int,
                color: color@,
            },
            Prim::CircleArc { center, radius, dir, degrees, depth, color } => GPrim::CircleArc {
                center: center@,
                radius: radius as int,
                dir: dir@,
                degrees: degrees as int,
                depth: depth as int,
                color: color@,
            },
        }
    }
}

/// Append-only list of this frame's drawing primitives; the renderer
/// consumes and clears it after every frame.
pub struct Canvas {
    items: Vec<Prim>,
}

impl View for Canvas {
    type V = Seq<GPrim>;

    closed spec fn view(&self) -> Seq<GPrim> {
        self.items@.map_values(|p: Prim| p@)
    }
}

impl Canvas {
    pub fn new() -> (c: Canvas)
        ensures
            c@ == Seq::<GPrim>::empty(),
    {
        let c = Canvas { items: Vec::new() };
        proof {
            assert(c@ =~= Seq::<GPrim>::empty());
        }
        c
    }

    pub fn len(&self) -> (n: usize)
        ensures
            n == self@.len(),
    {
        self.items.len()
    }

    /// Read back one primitive, for renderers and tests.
    pub fn item(&self, i: usize) -> (p: Prim)
        requires
            i < self@.len(),
        ensures
            p@ == self@[i as int],
    {
        self.items[i]
    }

    pub fn put_rect(&mut self, rect: Rect, depth: i64, color: Color)
        ensures
            final(self)@ == old(self)@.push(
                GPrim::Rect { rect: rect@, depth: depth as int, color: color@ },
            ),
    {
        self.items.push(Prim::Rect { rect, depth, color });
        proof {
            assert(self@ =~= old(self)@.push(
                GPrim::Rect { rect: rect@, depth: depth as int, color: color@ },
            ));
        }
    }

    pub fn put_circle(&mut self, center: V2, radius: i64, depth: i64, color: Color)
        ensures
            final(self)@ == old(self)@.push(
                GPrim::Circle {
                    center: center@,
                    radius: radius as int,
                    depth: depth as int,
                    color: color@,
                },
            ),
    {
        self.items.push(Prim::Circle { center, radius, depth, color });
        proof {
            assert(self@ =~= old(self)@.push(
                GPrim::Circle {
                    center: center@,
                    radius: radius as int,
                    depth: depth as int,
                    color: color@,
                },
            ));
        }
    }

    pub fn put_circle_arc(
        &mut self,
        center: V2,
        radius: i64,
        dir: V2,
        degrees: i64,
        depth: i64,
        color: Color,
    )
        ensures
            final(self)@ == old(self)@.push(
                GPrim::CircleArc {
                    center: center@,
                    radius: radius as int,
                    dir: dir@,
                    degrees: degrees as int,
                    depth: depth as int,
                    color: color@,
                },
            ),
    {
        self.items.push(Prim::CircleArc { center, radius, dir, degrees, depth, color });
        proof {
            assert(self@ =~= old(self)@.push(
                GPrim::CircleArc {
                    center: center@,
                    radius: radius as int,
                    dir: dir@,
                    degrees: degrees as int,
                    depth: depth as int,
                    color: color@,
                },
            ));
        }
    }
}

/// Everything a step produces: the canvas of this frame's primitives.
pub struct FrameOutputs {
    pub canvas: Canvas,
}

impl FrameOutputs {
    pub fn new() -> (o: FrameOutputs)
        ensures
            o.canvas@ == Seq::<GPrim>::empty(),
    {
        FrameOutputs { canvas: Canvas::new() }
    }
}

} // verus!
