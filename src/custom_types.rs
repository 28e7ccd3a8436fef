//! Events described as text, a cons list of `u32` values, and a threshold
//! test.
use vstd::prelude::*;
use vstd::string::StringExecFns;
use crate::text::{char_text, decimal, decimal_text};

verus! {

pub struct Point3D {
    pub x: i64,
    pub y: i64,
    pub z: i64,
}

/// Something that happened on a web page.
pub enum WebEvent {
    PageLoad,
    PageUnload,
    KeyPress(char),
    Paste(String),
    Click { x: i64, y: i64 },
    Draw(Point3D),
}

/// The line that describes an event.
pub open spec fn event_text(e: WebEvent) -> Seq<char> {
    match e {
        WebEvent::PageLoad => "Page load"@,
        WebEvent::PageUnload => "Page unload"@,
        WebEvent::KeyPress(key) => "pressed '"@ + seq![key] + "'"@,
        WebEvent::Paste(s) => "pasted \""@ + s@ + "\""@,
        WebEvent::Click { x, y } => "clicked at x="@ + decimal(x as int) + ", y="@ + decimal(
            y as int,
        ),
        WebEvent::Draw(p) => "draw at x="@ + decimal(p.x as int) + ", y="@ + decimal(p.y as int)
            + ", z="@ + decimal(p.z as int),
    }
}

impl WebEvent {
    /// Describes the event in one line.
    pub fn inspect(&self) -> (r: String)
        ensures
            r@ == event_text(*self),
    {
        match self {
            WebEvent::PageLoad => "Page load".to_owned(),
            WebEvent::PageUnload => "Page unload".to_owned(),
            WebEvent::KeyPress(key) => {
                let line = "pressed '".to_owned().concat(char_text(*key).as_str());
                line.concat("'")
            },
            WebEvent::Paste(s) => {
                let line = "pasted \"".to_owned().concat(s.as_str());
                line.concat("\"")
            },
            WebEvent::Click { x, y } => {
                let line = "clicked at x=".to_owned().concat(decimal_text(*x).as_str());
                let line = line.concat(", y=");
                line.concat(decimal_text(*y).as_str())
            },
            WebEvent::Draw(p) => {
                let line = "draw at x=".to_owned().concat(decimal_text(p.x).as_str());
                let line = line.concat(", y=");
                let line = line.concat(decimal_text(p.y).as_str());
                let line = line.concat(", z=");
                line.concat(decimal_text(p.z).as_str())
            },
        }
    }
}

/// A list built by prepending: `Cons(head, tail)` or the empty `Nil`.
pub enum List {
    Cons(u32, Box<List>),
    Nil,
}

impl List {
    /// The values, head first.
    pub open spec fn values(&self) -> Seq<u32>
        decreases self,
    {
        match self {
            List::Cons(v, tail) => seq![*v] + tail.values(),
            List::Nil => Seq::empty(),
        }
    }
}

impl View for List {
    type V = Seq<u32>;

    open spec fn view(&self) -> Seq<u32> {
        self.values()
    }
}

/// The text of a list holding `s`: each value and a comma, then `Nil`.
pub open spec fn list_text(s: Seq<u32>) -> Seq<char>
    decreases s.len(),
{
    if s.len() == 0 {
        seq!['N', 'i', 'l']
    } else {
        decimal(s[0] as int) + seq![',', ' '] + list_text(s.drop_first())
    }
}

impl List {
    pub fn new() -> (r: List)
        ensures
            r@ == Seq::<u32>::empty(),
    {
        List::Nil
    }

    pub fn prepend(self, elem: u32) -> (r: List)
        ensures
            r@ == seq![elem] + self@,
    {
        List::Cons(elem, Box::new(self))
    }

    pub fn len(&self) -> (r: u32)
        requires
            self@.len() <= u32::MAX,
        ensures
            r == self@.len(),
        decreases self,
    {
        match self {
            List::Cons(_, tail) => 1 + tail.len(),
            List::Nil => 0,
        }
    }

    pub fn stringify(&self) -> (r: String)
        ensures
            r@ == list_text(self@),
        decreases self,
    {
        match self {
            List::Cons(v, tail) => {
                let mut text = decimal_text(*v as i64);
                text.append(", ");
                let rest = tail.stringify();
                text.append(rest.as_str());
                proof {
                    reveal_strlit(", ");
                    assert((seq![*v] + tail@).drop_first() =~= tail@);
                }
                text
            },
            List::Nil => {
                proof {
                    reveal_strlit("Nil");
                }
                "Nil".to_owned()
            },
        }
    }
}

/// The bound above which a number counts as big.
pub const THRESHOLD: i32 = 10;

pub fn is_big(n: i32) -> (r: bool)
    ensures
        r == (n > THRESHOLD),
{
    n > THRESHOLD
}

} // verus!
