//! The rectangular playing field.

use vstd::prelude::*;

verus! {

/// Mathematical model of a court: its four bounds as unbounded integers.
pub struct CourtModel {
    pub top: int,
    pub bottom: int,
    pub left: int,
    pub right: int,
}

impl CourtModel {
    /// A court is well formed when it is a nondegenerate rectangle with
    /// bounds of moderate magnitude.
    pub open spec fn wf(self) -> bool {
        &&& -(crate::COURT_LIMIT as int) <= self.bottom < self.top <= crate::COURT_LIMIT as int
        &&& -(crate::COURT_LIMIT as int) <= self.left < self.right <= crate::COURT_LIMIT as int
    }
}

/// The playing field: a fixed rectangle the ball bounces in and the paddles
/// are clamped to.
pub struct Court {
    pub top: i64,
    pub bottom: i64,
    pub left: i64,
    pub right: i64,
}

impl View for Court {
    type V = CourtModel;

    open spec fn view(&self) -> CourtModel {
        CourtModel {
            top: self.top as int,
            bottom: self.bottom as int,
            left: self.left as int,
            right: self.right as int,
        }
    }
}

impl Court {
    /// Well-formedness of the executable court is that of its model.
    pub open spec fn wf(self) -> bool {
        self@.wf()
    }

    /// Builds a court from its four bounds.
    pub fn new(top: i64, bottom: i64, left: i64, right: i64) -> (c: Court)
        requires
            -crate::COURT_LIMIT <= bottom < top <= crate::COURT_LIMIT,
            -crate::COURT_LIMIT <= left < right <= crate::COURT_LIMIT,
        ensures
            c.wf(),
            c@ == (CourtModel { top: top as int, bottom: bottom as int, left: left as int, right: right as int }),
    {
        Court { top, bottom, left, right }
    }
}

} // verus!
