use vstd::prelude::*;

verus! {

/// Space kept free on each side of a widget, in terminal cells.
#[derive(Clone, Copy, Debug, PartialEq, Eq, Structural)]
pub struct Margin {
    pub top: u16,
    pub bottom: u16,
    pub left: u16,
    pub right: u16,
}

impl Default for Margin {
    fn default() -> (m: Self)
        ensures
            m == (Margin { top: 0, bottom: 0, left: 0, right: 0 }),
    {
        Margin { top: 0, bottom: 0, left: 0, right: 0 }
    }
}

impl Margin {
    /// The same margin on all four sides.
    pub fn new(value: u16) -> (m: Self)
        ensures
            m == (Margin { top: value, bottom: value, left: value, right: value }),
    {
        Self { top: value, bottom: value, left: value, right: value }
    }

    /// Sets the left and the right margin.
    pub fn horizontal(self, value: u16) -> (m: Self)
        ensures
            m == (Margin { left: value, right: value, ..self }),
    {
        let mut m = self;
        m.left = value;
        m.right = value;
        m
    }

    /// Sets the top and the bottom margin.
    pub fn vertical(self, value: u16) -> (m: Self)
        ensures
            m == (Margin { top: value, bottom: value, ..self }),
    {
        let mut m = self;
        m.top = value;
        m.bottom = value;
        m
    }

    /// Sets the top margin.
    pub fn top(self, value: u16) -> (m: Self)
        ensures
            m == (Margin { top: value, ..self }),
    {
        let mut m = self;
        m.top = value;
        m
    }

    /// Sets the bottom margin.
    pub fn bottom(self, value: u16) -> (m: Self)
        ensures
            m == (Margin { bottom: value, ..self }),
    {
        let mut m = self;
        m.bottom = value;
        m
    }

    /// Sets the left margin.
    pub fn left(self, value: u16) -> (m: Self)
        ensures
            m == (Margin { left: value, ..self }),
    {
        let mut m = self;
        m.left = value;
        m
    }

    /// Sets the right margin.
    pub fn right(self, value: u16) -> (m: Self)
        ensures
            m == (Margin { right: value, ..self }),
    {
        let mut m = self;
        m.right = value;
        m
    }
}

} // verus!
