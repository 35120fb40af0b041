//! Source locations for diagnostics.
//!
//! Every parsed entity carries a [`Span`] naming the region of source text it
//! came from, and every error points at the most relevant span. A span is a
//! half-open interval of positions; joining two spans yields the smallest
//! span covering both.

use vstd::prelude::*;

verus! {

/// A region of source text, used to attach diagnostics to their origin.
#[derive(Clone, Copy, Debug, PartialEq, Eq, Structural)]
pub struct Span {
    /// Position of the first covered unit of source text.
    pub start: u64,
    /// Position one past the last covered unit of source text.
    pub end: u64,
}

/// The smallest span covering both `a` and `b`.
pub open spec fn span_join(a: Span, b: Span) -> Span {
    Span {
        start: if a.start <= b.start {
            a.start
        } else {
            b.start
        },
        end: if a.end >= b.end {
            a.end
        } else {
            b.end
        },
    }
}

impl Span {
    /// Combine this span with another, covering both.
    pub fn join(self, other: Span) -> (r: Span)
        ensures
            r == span_join(self, other),
    {
        Span {
            start: if self.start <= other.start {
                self.start
            } else {
                other.start
            },
            end: if self.end >= other.end {
                self.end
            } else {
                other.end
            },
        }
    }
}

} // verus!
