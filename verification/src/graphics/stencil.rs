//! Stencil configuration, and what it means for one pixel.
//!
//! The stencil buffer holds one byte per pixel. A draw that covers a pixel
//! first compares the configured reference value with the stored byte, and
//! where the comparison passes it may replace the stored byte.

use vstd::prelude::*;

verus! {

/// The comparison between the reference value and the stored byte. The
/// reference value stands on the left: `LessThan` passes where the reference
/// is less than what is stored.
#[derive(Clone, Copy, Debug, PartialEq, Eq, Structural)]
pub enum StencilTest {
    Never,
    LessThan,
    LessThanOrEqualTo,
    EqualTo,
    NotEqualTo,
    GreaterThan,
    GreaterThanOrEqualTo,
    Always,
}

/// What happens to the stored byte where the comparison passes.
#[derive(Clone, Copy, Debug, PartialEq, Eq, Structural)]
pub enum StencilAction {
    /// The stored byte stays.
    Keep,
    /// The stored byte becomes 0.
    Zero,
    /// The stored byte becomes the reference value.
    Replace,
    /// One more, stopping at 255.
    Increment,
    /// One more, 255 being followed by 0.
    IncrementWrap,
    /// One less, stopping at 0.
    Decrement,
    /// One less, 0 being followed by 255.
    DecrementWrap,
    /// Every bit flipped.
    Invert,
}

/// How draws use the stencil buffer.
#[derive(Clone, Copy, Debug, PartialEq, Eq, Structural)]
pub enum StencilState {
    /// Draws neither read nor change the stencil buffer.
    Disabled,
    /// Every covered pixel has `action` applied to its stored byte.
    Write { action: StencilAction, reference: u8 },
    /// A covered pixel is drawn only where `test` passes. Nothing is stored.
    Read { test: StencilTest, reference: u8 },
}

impl StencilTest {
    pub open spec fn spec_passes(self, reference: u8, stored: u8) -> bool {
        match self {
            StencilTest::Never => false,
            StencilTest::LessThan => reference < stored,
            StencilTest::LessThanOrEqualTo => reference <= stored,
            StencilTest::EqualTo => reference == stored,
            StencilTest::NotEqualTo => reference != stored,
            StencilTest::GreaterThan => reference > stored,
            StencilTest::GreaterThanOrEqualTo => reference >= stored,
            StencilTest::Always => true,
        }
    }

    /// Whether a pixel that stores `stored` passes against `reference`.
    #[verifier::when_used_as_spec(spec_passes)]
    pub fn passes(self, reference: u8, stored: u8) -> (pass: bool)
        ensures
            pass == self.spec_passes(reference, stored),
    {
        match self {
            StencilTest::Never => false,
            StencilTest::LessThan => reference < stored,
            StencilTest::LessThanOrEqualTo => reference <= stored,
            StencilTest::EqualTo => reference == stored,
            StencilTest::NotEqualTo => reference != stored,
            StencilTest::GreaterThan => reference > stored,
            StencilTest::GreaterThanOrEqualTo => reference >= stored,
            StencilTest::Always => true,
        }
    }
}

impl StencilAction {
    pub open spec fn spec_apply(self, reference: u8, stored: u8) -> u8 {
        match self {
            StencilAction::Keep => stored,
            StencilAction::Zero => 0,
            StencilAction::Replace => reference,
            StencilAction::Increment => if stored == 255 {
                255
            } else {
                (stored + 1) as u8
            },
            StencilAction::IncrementWrap => if stored == 255 {
                0
            } else {
                (stored + 1) as u8
            },
            StencilAction::Decrement => if stored == 0 {
                0
            } else {
                (stored - 1) as u8
            },
            StencilAction::DecrementWrap => if stored == 0 {
                255
            } else {
                (stored - 1) as u8
            },
            StencilAction::Invert => (255 - stored) as u8,
        }
    }

    /// The byte that replaces `stored`.
    #[verifier::when_used_as_spec(spec_apply)]
    pub fn apply(self, reference: u8, stored: u8) -> (value: u8)
        ensures
            value == self.spec_apply(reference, stored),
    {
        match self {
            StencilAction::Keep => stored,
            StencilAction::Zero => 0,
            StencilAction::Replace => reference,
            StencilAction::Increment => if stored == 255 {
                255
            } else {
                stored + 1
            },
            StencilAction::IncrementWrap => if stored == 255 {
                0
            } else {
                stored + 1
            },
            StencilAction::Decrement => if stored == 0 {
                0
            } else {
                stored - 1
            },
            StencilAction::DecrementWrap => if stored == 0 {
                255
            } else {
                stored - 1
            },
            StencilAction::Invert => 255 - stored,
        }
    }
}

impl StencilState {
    /// The state in which draws leave the stencil buffer alone.
    pub fn disabled() -> (state: StencilState)
        ensures
            state == StencilState::Disabled,
    {
        StencilState::Disabled
    }

    /// The state in which draws write to the stencil buffer.
    pub fn write(action: StencilAction, reference: u8) -> (state: StencilState)
        ensures
            state == (StencilState::Write { action, reference }),
    {
        StencilState::Write { action, reference }
    }

    /// The state in which draws are masked by the stencil buffer.
    pub fn read(test: StencilTest, reference: u8) -> (state: StencilState)
        ensures
            state == (StencilState::Read { test, reference }),
    {
        StencilState::Read { test, reference }
    }

    pub open spec fn spec_passes(self, stored: u8) -> bool {
        match self {
            StencilState::Disabled => true,
            StencilState::Write { .. } => true,
            StencilState::Read { test, reference } => test.spec_passes(reference, stored),
        }
    }

    pub open spec fn spec_stored_after(self, stored: u8) -> u8 {
        match self {
            StencilState::Disabled => stored,
            StencilState::Write { action, reference } => action.spec_apply(reference, stored),
            StencilState::Read { .. } => stored,
        }
    }

    /// Whether a covered pixel that stores `stored` is drawn.
    #[verifier::when_used_as_spec(spec_passes)]
    pub fn passes(self, stored: u8) -> (pass: bool)
        ensures
            pass == self.spec_passes(stored),
    {
        match self {
            StencilState::Disabled => true,
            StencilState::Write { .. } => true,
            StencilState::Read { test, reference } => test.passes(reference, stored),
        }
    }

    /// What a covered pixel that stores `stored` holds after the draw.
    #[verifier::when_used_as_spec(spec_stored_after)]
    pub fn stored_after(self, stored: u8) -> (value: u8)
        ensures
            value == self.spec_stored_after(stored),
    {
        match self {
            StencilState::Disabled => stored,
            StencilState::Write { action, reference } => action.apply(reference, stored),
            StencilState::Read { .. } => stored,
        }
    }
}

} // verus!
