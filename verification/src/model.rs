use vstd::prelude::*;

verus! {

/// An object placed in the dispatcher's office.
#[derive(Clone, Copy, Debug, PartialEq, Eq, Hash, Structural)]
pub enum DispatcherItem {
    Door,
    DoorSign,
    Table,
    Monitor,
    RealMouse,
    Cactus,
    Book,
    TheSock,
    ButtonStation,
    Bfb,
    ButtonYellow,
    ButtonGreen,
    ButtonSalad,
    ButtonPink,
    ButtonBlue,
    ButtonWhite,
    ButtonPurple,
    ButtonOrange,
    ButtonCyan,
    Tea,
}

/// Whether the item reacts to the cursor: everything but the door, the table and the tea.
pub open spec fn spec_is_interactable(item: DispatcherItem) -> bool {
    !(item is Door || item is Table || item is Tea)
}

impl DispatcherItem {
    pub fn is_interactable(&self) -> (res: bool)
        ensures
            res == spec_is_interactable(*self),
    {
        match self {
            DispatcherItem::Door => false,
            DispatcherItem::DoorSign => true,
            DispatcherItem::Table => false,
            DispatcherItem::Monitor => true,
            DispatcherItem::RealMouse => true,
            DispatcherItem::Cactus => true,
            DispatcherItem::Book => true,
            DispatcherItem::TheSock => true,
            DispatcherItem::ButtonStation => true,
            DispatcherItem::Bfb
            | DispatcherItem::ButtonYellow
            | DispatcherItem::ButtonGreen
            | DispatcherItem::ButtonSalad
            | DispatcherItem::ButtonPink
            | DispatcherItem::ButtonBlue
            | DispatcherItem::ButtonWhite
            | DispatcherItem::ButtonPurple
            | DispatcherItem::ButtonOrange
            | DispatcherItem::ButtonCyan => true,
            DispatcherItem::Tea => false,
        }
    }
}

/// A side of the dispatcher's office, the four walls in turn to the right.
#[derive(Clone, Copy, Debug, PartialEq, Eq, Hash, Structural)]
pub enum DispatcherViewSide {
    Front,
    Right,
    Back,
    Left,
}

/// The wall to the left of `side`.
pub open spec fn side_left_of(side: DispatcherViewSide) -> DispatcherViewSide {
    match side {
        DispatcherViewSide::Front => DispatcherViewSide::Left,
        DispatcherViewSide::Left => DispatcherViewSide::Back,
        DispatcherViewSide::Back => DispatcherViewSide::Right,
        DispatcherViewSide::Right => DispatcherViewSide::Front,
    }
}

/// The wall to the right of `side`.
pub open spec fn side_right_of(side: DispatcherViewSide) -> DispatcherViewSide {
    match side {
        DispatcherViewSide::Front => DispatcherViewSide::Right,
        DispatcherViewSide::Right => DispatcherViewSide::Back,
        DispatcherViewSide::Back => DispatcherViewSide::Left,
        DispatcherViewSide::Left => DispatcherViewSide::Front,
    }
}

impl DispatcherViewSide {
    /// Turning left.
    pub fn cycle_left(&self) -> (r: DispatcherViewSide)
        ensures
            r == side_left_of(*self),
    {
        match self {
            DispatcherViewSide::Front => DispatcherViewSide::Left,
            DispatcherViewSide::Left => DispatcherViewSide::Back,
            DispatcherViewSide::Back => DispatcherViewSide::Right,
            DispatcherViewSide::Right => DispatcherViewSide::Front,
        }
    }

    /// Turning right.
    pub fn cycle_right(&self) -> (r: DispatcherViewSide)
        ensures
            r == side_right_of(*self),
    {
        match self {
            DispatcherViewSide::Front => DispatcherViewSide::Right,
            DispatcherViewSide::Right => DispatcherViewSide::Back,
            DispatcherViewSide::Back => DispatcherViewSide::Left,
            DispatcherViewSide::Left => DispatcherViewSide::Front,
        }
    }
}

/// A code after typing `digit`: the digit is added while typing is possible
/// (`open`) and the code is shorter than `limit`.
pub open spec fn code_typed(code: Seq<usize>, open: bool, limit: int, digit: usize) -> Seq<usize> {
    if open && code.len() < limit {
        code.push(digit)
    } else {
        code
    }
}

/// A code after erasing: the last digit goes while typing is possible.
pub open spec fn code_erased(code: Seq<usize>, open: bool) -> Seq<usize> {
    if open && code.len() > 0 {
        code.drop_last()
    } else {
        code
    }
}

} // verus!
