use vstd::prelude::*;

verus! {

/// What a session may do, as negotiated once at connection time.
#[derive(Debug, Clone, Copy, PartialEq, Eq, Structural)]
pub enum Mode {
    Push,
    Pull,
    PushAndPull,
}

impl Mode {
    pub open spec fn spec_can_push(self) -> bool {
        self is Push || self is PushAndPull
    }

    pub open spec fn spec_can_pull(self) -> bool {
        self is Pull || self is PushAndPull
    }

    pub fn can_push(&self) -> (r: bool)
        ensures
            r == self.spec_can_push(),
    {
        match self {
            Mode::Push => true,
            Mode::Pull => false,
            Mode::PushAndPull => true,
        }
    }

    pub fn can_pull(&self) -> (r: bool)
        ensures
            r == self.spec_can_pull(),
    {
        match self {
            Mode::Push => false,
            Mode::Pull => true,
            Mode::PushAndPull => true,
        }
    }
}

} // verus!
