//! Popups: where a popup box goes, and what the password popup shows.
use vstd::prelude::*;
use vstd::string::*;
use crate::ui::area::{self, Position, Rect};
use crate::ui::margin::Margin;
use crate::ui::input::Input;

verus! {

/// Size and placement of a popup box; by default it sits in the top-left corner.
#[derive(Clone, Copy, Debug, PartialEq, Eq, Structural)]
pub struct Options {
    pub width: u16,
    pub height: u16,
    pub position: Position,
    pub margin: Margin,
}

impl Default for Options {
    fn default() -> (o: Self)
        ensures
            o == (Options {
                width: 0,
                height: 0,
                position: Position::LeftTop,
                margin: Margin { top: 0, bottom: 0, left: 0, right: 0 },
            }),
    {
        Options { width: 0, height: 0, position: Position::LeftTop, margin: Margin::default() }
    }
}

/// The box a popup takes on a screen of area `screen`.
pub fn popup_rect(screen: Rect, opt: Options) -> (r: Rect)
    ensures
        r == area::spec_anchor_rect(screen, opt.width, opt.height, opt.position, opt.margin),
{
    area::anchor_rect(screen, opt.width, opt.height, opt.position, opt.margin)
}

/// The password popup: 60 x 7 cells in the middle of the screen.
pub fn auth_options() -> (o: Options)
    ensures
        o == (Options { width: 60, height: 7, position: Position::Center, ..Options::default_spec() }),
{
    Options { width: 60, height: 7, position: Position::Center, ..Options::default() }
}

impl Options {
    /// The default options, for contracts.
    pub open spec fn default_spec() -> Options {
        Options {
            width: 0,
            height: 0,
            position: Position::LeftTop,
            margin: Margin { top: 0, bottom: 0, left: 0, right: 0 },
        }
    }
}

/// The line of the password popup where the password is typed: inside the border, below the
/// title line and a blank line.
pub fn auth_input_area(popup: Rect) -> (r: Rect)
    requires
        popup.x < u16::MAX,
        popup.y + 3 <= u16::MAX,
    ensures
        r == area::spec_rect((popup.x + 1) as u16, (popup.y + 3) as u16, popup.width.saturating_sub(2), 1),
{
    area::rect_new(popup.x + 1, popup.y + 3, popup.width.saturating_sub(2), 1)
}

/// The text the password field shows and the eye icon beside it.
pub open spec fn shown_password(value: Seq<char>, hidden: bool) -> Seq<char> {
    if hidden { Seq::new(value.len(), |i: int| '*') } else { value }
}

/// What the password field shows: one `*` per character when the password is hidden, the
/// password itself otherwise; and the icon of a closed or an open eye.
pub fn password_display(input: &Input) -> (r: (String, &'static str))
    ensures
        r.0@ == shown_password(input.value@, input.hidden_password),
        input.hidden_password ==> r.1@ == " \u{f0209}  "@,
        !input.hidden_password ==> r.1@ == " \u{f0208}   "@,
{
    if input.hidden_password {
        let count = input.value.as_str().unicode_len();
        let mut masked = String::new();
        for i in 0..count
            invariant
                masked@ == Seq::new(i as nat, |j: int| '*'),
        {
            masked.append("*");
            proof {
                reveal_strlit("*");
            }
            assert(masked@ =~= Seq::new((i + 1) as nat, |j: int| '*'));
        }
        (masked, " \u{f0209}  ")
    } else {
        (input.value.clone(), " \u{f0208}   ")
    }
}

/// The terminal column of the cursor in the password field `field`: the cursor's character
/// position counted from the field's left edge, held at the field's last column so that it
/// does not run over the eye icon.
pub fn password_cursor_x(field: Rect, cx: usize) -> (x: u16)
    requires
        field.x + (cx as u16) <= u16::MAX,
        field.x + field.width.saturating_sub(1) <= u16::MAX,
    ensures
        x == area::min_u16((field.x + (cx as u16)) as u16, (field.x + field.width.saturating_sub(1)) as u16),
{
    #[verifier::truncate]
    let c = cx as u16;
    let pos = field.x + c;
    let max = field.x + field.width.saturating_sub(1);
    if pos < max { pos } else { max }
}

} // verus!
