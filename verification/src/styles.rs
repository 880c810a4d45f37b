use vstd::prelude::*;

verus! {

/// Advisory focus flag: a parent composite model toggles it on its
/// children before delegating input or rendering, and the children only
/// consult it to decide how they appear and react.
#[derive(Debug, Clone, Copy, PartialEq, Eq, Structural)]
pub enum FocusState {
    Blur,
    Focus,
}

impl Default for FocusState {
    fn default() -> (r: Self)
        ensures
            r == FocusState::Blur,
    {
        FocusState::Blur
    }
}

impl From<bool> for FocusState {
    fn from(b: bool) -> (r: Self) {
        if b {
            FocusState::Focus
        } else {
            FocusState::Blur
        }
    }
}

impl vstd::std_specs::convert::FromSpecImpl<bool> for FocusState {
    open spec fn obeys_from_spec() -> bool {
        true
    }

    open spec fn from_spec(b: bool) -> Self {
        if b {
            FocusState::Focus
        } else {
            FocusState::Blur
        }
    }
}

impl From<FocusState> for bool {
    fn from(fs: FocusState) -> (r: Self) {
        match fs {
            FocusState::Focus => true,
            FocusState::Blur => false,
        }
    }
}

impl vstd::std_specs::convert::FromSpecImpl<FocusState> for bool {
    open spec fn obeys_from_spec() -> bool {
        true
    }

    open spec fn from_spec(fs: FocusState) -> Self {
        fs == FocusState::Focus
    }
}

} // verus!
