use vstd::prelude::*;

verus! {

/// A score of a position or move, from one side's point of view.
///
/// `Additive` values are summed with other additive signals; an `Absolute`
/// value is an overriding judgment (a forced draw, a checkmate) that
/// dominates additive signals.
#[derive(Clone, Copy, Debug, PartialEq, Eq, Structural)]
pub enum Evaluation {
    Additive(i32),
    Absolute(i32),
}

/// The absolute value of an integer.
pub open spec fn magnitude(v: int) -> int {
    if v < 0 {
        -v
    } else {
        v
    }
}

/// The combination rule of the algebra, applied left to right when folding
/// strategy outputs.
///
/// Two absolute judgments combine to the one of smaller magnitude, the left
/// one on equal magnitudes: a milder overriding judgment (a draw) wins over a
/// more extreme one (a mate).
pub open spec fn combine(a: Evaluation, b: Evaluation) -> Evaluation {
    match (a, b) {
        (Evaluation::Additive(i), Evaluation::Additive(j)) => Evaluation::Additive((i + j) as i32),
        (Evaluation::Additive(_), Evaluation::Absolute(j)) => Evaluation::Absolute(j),
        (Evaluation::Absolute(_), Evaluation::Additive(_)) => a,
        (Evaluation::Absolute(i), Evaluation::Absolute(j)) => {
            if magnitude(j as int) < magnitude(i as int) {
                Evaluation::Absolute(j)
            } else {
                Evaluation::Absolute(i)
            }
        },
    }
}

/// Whether `combine(a, b)` stays within the range of `i32`.
pub open spec fn combinable(a: Evaluation, b: Evaluation) -> bool {
    match (a, b) {
        (Evaluation::Additive(i), Evaluation::Additive(j)) => i32::MIN <= i + j <= i32::MAX,
        _ => true,
    }
}

impl Evaluation {
    /// The single signed integer that a score collapses to for ranking.
    pub open spec fn value(self) -> int {
        match self {
            Evaluation::Additive(v) => v as int,
            Evaluation::Absolute(v) => v as int,
        }
    }

    /// Combines two scores by the algebra's rule (see `combine`).
    pub fn add(self, rhs: Evaluation) -> (r: Evaluation)
        requires
            combinable(self, rhs),
        ensures
            r == combine(self, rhs),
    {
        match self {
            Evaluation::Additive(i) => match rhs {
                Evaluation::Additive(j) => Evaluation::Additive(i + j),
                Evaluation::Absolute(j) => Evaluation::Absolute(j),
            },
            Evaluation::Absolute(i) => match rhs {
                Evaluation::Additive(_) => self,
                Evaluation::Absolute(j) => {
                    let mi: i64 = if i < 0 { -(i as i64) } else { i as i64 };
                    let mj: i64 = if j < 0 { -(j as i64) } else { j as i64 };
                    if mj < mi {
                        Evaluation::Absolute(j)
                    } else {
                        Evaluation::Absolute(i)
                    }
                },
            },
        }
    }

    pub fn to_i32(&self) -> (r: i32)
        ensures
            r as int == self.value(),
    {
        match *self {
            Evaluation::Additive(v) => v,
            Evaluation::Absolute(v) => v,
        }
    }
}

} // verus!
