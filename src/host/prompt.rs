//! Show user popup window to ask for some value.
//!
//! Firstly, init a builder either with `Prompt::builder` or
//! [`PromptBuilder::default`] to build your prompt, then show it to get the result
//! (`Prompt`).
use vstd::prelude::*;

verus! {

/// The result of a prompt, if the user closed the window by clicking OK.
#[derive(Debug)]
pub struct Prompt {
    /// The text typed in by the user.
    pub value: String,
    /// The color selected by the user, if [`PromptBuilder::with_color`] called. Otherwise it's
    /// `None`.
    pub color: Option<i32>,
}

impl Prompt {
    /// Init `PromptBuilder`.
    pub fn builder() -> (r: PromptBuilder)
        ensures
            r@ == (PromptView { x: None, y: None, with_color: false }),
    {
        PromptBuilder { x: None, y: None, with_color: false }
    }
}

/// What a [`PromptBuilder`] holds.
pub struct PromptView {
    /// Horizontal position, if set.
    pub x: Option<u32>,
    /// Vertical position, if set.
    pub y: Option<u32>,
    /// Whether the user is asked for a color too.
    pub with_color: bool,
}

/// Use this to show `Prompt`.
#[derive(Clone, Copy, Debug)]
pub struct PromptBuilder {
    x: Option<u32>,
    y: Option<u32>,
    with_color: bool,
}

impl View for PromptBuilder {
    type V = PromptView;

    closed spec fn view(&self) -> PromptView {
        PromptView { x: self.x, y: self.y, with_color: self.with_color }
    }
}

impl Default for PromptBuilder {
    fn default() -> (r: Self)
        ensures
            r@ == (PromptView { x: None, y: None, with_color: false }),
    {
        PromptBuilder { x: None, y: None, with_color: false }
    }
}

/// `x` with its bytes in the opposite order.
pub open spec fn byte_swapped(x: i32) -> i32 {
    let u = x as u32;
    (((u & 0xff) << 24u32) | ((u & 0xff00) << 8u32) | ((u >> 8u32) & 0xff00) | (u >> 24u32)) as i32
}

/// Relies on `i32::from_be`: on a big-endian target the value is returned as it is, on any other
/// its bytes are swapped.
#[verifier::external_body]
fn i32_from_be(x: i32) -> (r: i32)
    ensures
        r == x || r == byte_swapped(x),
{
    i32::from_be(x)
}

impl PromptBuilder {
    /// Set horizontal position. Otherwise it's centered horizontally.
    pub fn with_x(self, x: u32) -> (r: Self)
        ensures
            r@ == (PromptView { x: Some(x), ..self@ }),
    {
        let mut prompt = self;
        prompt.x = Some(x);
        prompt
    }

    /// Set vertical position. Otherwise it's centered vertically.
    pub fn with_y(self, y: u32) -> (r: Self)
        ensures
            r@ == (PromptView { y: Some(y), ..self@ }),
    {
        let mut prompt = self;
        prompt.y = Some(y);
        prompt
    }

    /// Call if you want user to set color also.
    pub fn with_color(self) -> (r: Self)
        ensures
            r@ == (PromptView { with_color: true, ..self@ }),
    {
        let mut prompt = self;
        prompt.with_color = true;
        prompt
    }

    /// The position to hand to the host, as C `int`s: `-1` for a coordinate that is not set,
    /// so that the window is centered along it.
    pub fn raw_position(&self) -> (r: (i32, i32))
        ensures
            r.0 == (match self@.x {
                Some(x) => x as i32,
                None => -1i32,
            }),
            r.1 == (match self@.y {
                Some(y) => y as i32,
                None => -1i32,
            }),
    {
        let x = match self.x {
            Some(v) => v as i32,
            None => -1,
        };
        let y = match self.y {
            Some(v) => v as i32,
            None => -1,
        };
        (x, y)
    }

    /// The color to hand to the host before it shows the prompt: `0` to ask for a color, `-1`
    /// not to.
    pub fn initial_color(&self) -> (r: i32)
        ensures
            r == (if self@.with_color {
                0i32
            } else {
                -1i32
            }),
    {
        if self.with_color {
            0
        } else {
            -1
        }
    }

    /// The color of the prompt's result, from the color the host wrote back in big-endian
    /// byte order: `None` where no color was asked for.
    pub fn color_to_result(&self, color: i32) -> (r: Option<i32>)
        ensures
            r is Some <==> self@.with_color,
            r matches Some(c) ==> c == color || c == byte_swapped(color),
    {
        if self.with_color {
            Some(i32_from_be(color))
        } else {
            None
        }
    }
}

} // verus!
