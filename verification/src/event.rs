//! Platform events as plain values, and their routing to the two loops.

use vstd::prelude::*;

verus! {

/// Quotient of `a` by a positive `b`, rounded toward zero.
pub open spec fn toward_zero(a: int, b: int) -> int
    recommends
        b > 0,
{
    if a >= 0 {
        a / b
    } else {
        -((-a) / b)
    }
}

/// A cursor position.
#[derive(Clone, Copy, Debug, PartialEq, Eq, Structural)]
pub struct Point {
    pub x: i32,
    pub y: i32,
}

/// The client rectangle of the window.
#[derive(Clone, Copy, Debug, PartialEq, Eq, Structural)]
pub struct Rect {
    pub left: i32,
    pub top: i32,
    pub right: i32,
    pub bottom: i32,
}

impl Rect {
    pub open spec fn spec_width(self) -> int {
        self.right - self.left
    }

    pub open spec fn spec_height(self) -> int {
        self.bottom - self.top
    }

    pub open spec fn spec_center_x(self) -> int {
        toward_zero(self.right + self.left, 2)
    }

    pub open spec fn spec_center_y(self) -> int {
        toward_zero(self.bottom + self.top, 2)
    }

    /// Whether `at` lies strictly inside the centred box whose half-extent
    /// is a quarter of the rectangle's extent in each direction.
    pub open spec fn spec_near_center(self, at: Point) -> bool {
        let dx = at.x - self.spec_center_x();
        let dy = at.y - self.spec_center_y();
        &&& (if dx < 0 { -dx } else { dx }) < toward_zero(self.spec_width(), 4)
        &&& (if dy < 0 { -dy } else { dy }) < toward_zero(self.spec_height(), 4)
    }

    /// The rectangle with every edge at zero.
    pub fn empty() -> (r: Rect)
        ensures
            r == (Rect { left: 0, top: 0, right: 0, bottom: 0 }),
    {
        Rect { left: 0, top: 0, right: 0, bottom: 0 }
    }

    /// Horizontal extent; negative where `right` lies left of `left`.
    pub fn width(&self) -> (w: i64)
        ensures
            w == self.spec_width(),
    {
        self.right as i64 - self.left as i64
    }

    /// Vertical extent; negative where `bottom` lies above `top`.
    pub fn height(&self) -> (h: i64)
        ensures
            h == self.spec_height(),
    {
        self.bottom as i64 - self.top as i64
    }

    /// Horizontal midpoint, rounded toward zero.
    pub fn center_x(&self) -> (c: i32)
        ensures
            c == self.spec_center_x(),
    {
        ((self.right as i64 + self.left as i64) / 2) as i32
    }

    /// Vertical midpoint, rounded toward zero.
    pub fn center_y(&self) -> (c: i32)
        ensures
            c == self.spec_center_y(),
    {
        ((self.bottom as i64 + self.top as i64) / 2) as i32
    }
}

/// The keys the simulation reacts to.
#[derive(Clone, Copy, Debug, PartialEq, Eq, Structural)]
pub enum Key {
    Left,
    Right,
    Forward,
    Backward,
    Jump,
    Other,
}

/// The tag of an event.
#[derive(Clone, Copy, Debug, PartialEq, Eq, Structural)]
pub enum Message {
    Resize,
    Paint,
    MouseMove,
    KeyDown,
    KeyUp,
}

/// The payload of an event.
#[derive(Clone, Copy, Debug, PartialEq, Eq, Structural)]
pub enum EventData {
    Resize(Rect),
    Empty,
    MouseMove(Point),
    /// `repeat` says that the key was already held when this event was made.
    KeyDown { key: Key, repeat: bool },
    KeyUp { key: Key },
}

/// One event of the platform. The tag and the payload are separate, so an
/// event can carry a payload that does not belong to its tag; consumers
/// report such an event and give it no effect.
#[derive(Clone, Copy, Debug, PartialEq, Eq, Structural)]
pub struct Event {
    pub message: Message,
    pub data: EventData,
}

/// Which of the two queues an event is appended to.
#[derive(Clone, Copy, Debug, PartialEq, Eq, Structural)]
pub struct Route {
    pub render: bool,
    pub simulation: bool,
}

impl Message {
    /// Paint goes to the render side only, key events to the simulation
    /// side only, resize and mouse moves to both.
    pub open spec fn spec_route(self) -> Route {
        match self {
            Message::Paint => Route { render: true, simulation: false },
            Message::Resize => Route { render: true, simulation: true },
            Message::MouseMove => Route { render: true, simulation: true },
            Message::KeyDown => Route { render: false, simulation: true },
            Message::KeyUp => Route { render: false, simulation: true },
        }
    }

    pub fn route(self) -> (r: Route)
        ensures
            r == self.spec_route(),
    {
        match self {
            Message::Paint => Route { render: true, simulation: false },
            Message::Resize | Message::MouseMove => Route { render: true, simulation: true },
            Message::KeyDown | Message::KeyUp => Route { render: false, simulation: true },
        }
    }
}

impl Event {
    /// Whether the payload is the one that belongs to the tag.
    pub open spec fn spec_well_formed(self) -> bool {
        match self.message {
            Message::Resize => self.data is Resize,
            Message::Paint => self.data is Empty,
            Message::MouseMove => self.data is MouseMove,
            Message::KeyDown => self.data is KeyDown,
            Message::KeyUp => self.data is KeyUp,
        }
    }

    pub fn resize(rect: Rect) -> (e: Event)
        ensures
            e == (Event { message: Message::Resize, data: EventData::Resize(rect) }),
            e.spec_well_formed(),
    {
        Event { message: Message::Resize, data: EventData::Resize(rect) }
    }

    pub fn paint() -> (e: Event)
        ensures
            e == (Event { message: Message::Paint, data: EventData::Empty }),
            e.spec_well_formed(),
    {
        Event { message: Message::Paint, data: EventData::Empty }
    }

    pub fn mouse_move(at: Point) -> (e: Event)
        ensures
            e == (Event { message: Message::MouseMove, data: EventData::MouseMove(at) }),
            e.spec_well_formed(),
    {
        Event { message: Message::MouseMove, data: EventData::MouseMove(at) }
    }

    pub fn key_down(key: Key, repeat: bool) -> (e: Event)
        ensures
            e == (Event { message: Message::KeyDown, data: EventData::KeyDown { key, repeat } }),
            e.spec_well_formed(),
    {
        Event { message: Message::KeyDown, data: EventData::KeyDown { key, repeat } }
    }

    pub fn key_up(key: Key) -> (e: Event)
        ensures
            e == (Event { message: Message::KeyUp, data: EventData::KeyUp { key } }),
            e.spec_well_formed(),
    {
        Event { message: Message::KeyUp, data: EventData::KeyUp { key } }
    }

    /// Whether the payload is the one that belongs to the tag.
    pub fn well_formed(&self) -> (b: bool)
        ensures
            b == self.spec_well_formed(),
    {
        match (self.message, self.data) {
            (Message::Resize, EventData::Resize(_)) => true,
            (Message::Paint, EventData::Empty) => true,
            (Message::MouseMove, EventData::MouseMove(_)) => true,
            (Message::KeyDown, EventData::KeyDown { .. }) => true,
            (Message::KeyUp, EventData::KeyUp { .. }) => true,
            _ => false,
        }
    }
}

} // verus!
