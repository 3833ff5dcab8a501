use vstd::prelude::*;

verus! {

/// The sign of a coordinate.
#[derive(Clone, Copy, Debug, PartialEq, Eq, Structural)]
pub enum Sign {
    Negative,
    Zero,
    Positive,
}

/// The side of a box that the ball struck.
#[derive(Clone, Copy, Debug, PartialEq, Eq, Structural)]
pub enum Collision {
    Left,
    Right,
    Top,
    Bottom,
}

/// Where the ball's centre lies from the nearest point of a box it touches:
/// the signs of the two components of that offset, and whether the
/// horizontal one is strictly larger in magnitude.
#[derive(Clone, Copy, Debug, PartialEq, Eq, Structural)]
pub struct ContactOffset {
    pub x: Sign,
    pub y: Sign,
    pub x_dominant: bool,
}

/// The signs of the two components of the ball's velocity.
#[derive(Clone, Copy, Debug, PartialEq, Eq, Structural)]
pub struct Heading {
    pub x: Sign,
    pub y: Sign,
}

/// A box that the ball touches in this step: the collider's number, the side
/// that was struck, and whether the box is a brick.
#[derive(Clone, Copy, Debug, PartialEq, Eq, Structural)]
pub struct Hit {
    pub collider: usize,
    pub side: Collision,
    pub brick: bool,
}

/// The side struck is the one the offset mostly points away from: left or
/// right when the horizontal part dominates, else top or bottom.
pub open spec fn side_of(offset: ContactOffset) -> Collision {
    if offset.x_dominant {
        if offset.x == Sign::Negative {
            Collision::Left
        } else {
            Collision::Right
        }
    } else if offset.y == Sign::Positive {
        Collision::Top
    } else {
        Collision::Bottom
    }
}

/// Striking a side reverses the velocity component that points into it, and
/// leaves the velocity alone when the ball already moves away.
pub open spec fn reflected(h: Heading, side: Collision) -> Heading {
    match side {
        Collision::Left => if h.x == Sign::Positive {
            Heading { x: Sign::Negative, ..h }
        } else {
            h
        },
        Collision::Right => if h.x == Sign::Negative {
            Heading { x: Sign::Positive, ..h }
        } else {
            h
        },
        Collision::Top => if h.y == Sign::Negative {
            Heading { y: Sign::Positive, ..h }
        } else {
            h
        },
        Collision::Bottom => if h.y == Sign::Positive {
            Heading { y: Sign::Negative, ..h }
        } else {
            h
        },
    }
}

/// The state of the ball and the game while the hits of one step are
/// handled.
pub struct StepModel {
    pub heading: Heading,
    pub score: int,
    pub despawned: Seq<usize>,
}

/// One hit: the ball bounces, and a brick is removed and scores a point.
pub open spec fn after_hit(m: StepModel, hit: Hit) -> StepModel {
    StepModel {
        heading: reflected(m.heading, hit.side),
        score: if hit.brick {
            m.score + 1
        } else {
            m.score
        },
        despawned: if hit.brick {
            m.despawned.push(hit.collider)
        } else {
            m.despawned
        },
    }
}

/// The first `n` hits handled in order.
pub open spec fn after_hits(start: StepModel, hits: Seq<Hit>, n: int) -> StepModel
    decreases n,
{
    if n <= 0 {
        start
    } else {
        after_hit(after_hits(start, hits, n - 1), hits[n - 1])
    }
}

/// All hits of a step handled in order, from the ball's heading and the
/// score before the step.
pub open spec fn step_outcome(heading: Heading, score: int, hits: Seq<Hit>) -> StepModel {
    after_hits(StepModel { heading, score, despawned: Seq::empty() }, hits, hits.len() as int)
}

/// The result of one step of collisions.
pub struct StepOutcome {
    pub heading: Heading,
    pub score: usize,
    /// The bricks struck, in the order they were struck.
    pub despawned: Vec<usize>,
}

impl View for StepOutcome {
    type V = StepModel;

    open spec fn view(&self) -> StepModel {
        StepModel { heading: self.heading, score: self.score as int, despawned: self.despawned@ }
    }
}

/// The side of a box that the ball struck, from the offset of its centre.
pub fn collision_side(offset: ContactOffset) -> (r: Collision)
    ensures
        r == side_of(offset),
{
    if offset.x_dominant {
        match offset.x {
            Sign::Negative => Collision::Left,
            _ => Collision::Right,
        }
    } else {
        match offset.y {
            Sign::Positive => Collision::Top,
            _ => Collision::Bottom,
        }
    }
}

/// Bounces the ball off the side it struck.
pub fn reflect(heading: Heading, side: Collision) -> (r: Heading)
    ensures
        r == reflected(heading, side),
        side == Collision::Left ==> r.x != Sign::Positive,
        side == Collision::Right ==> r.x != Sign::Negative,
        side == Collision::Top ==> r.y != Sign::Negative,
        side == Collision::Bottom ==> r.y != Sign::Positive,
{
    let mut r = heading;
    match side {
        Collision::Left => {
            if heading.x == Sign::Positive {
                r.x = Sign::Negative;
            }
        },
        Collision::Right => {
            if heading.x == Sign::Negative {
                r.x = Sign::Positive;
            }
        },
        Collision::Top => {
            if heading.y == Sign::Negative {
                r.y = Sign::Positive;
            }
        },
        Collision::Bottom => {
            if heading.y == Sign::Positive {
                r.y = Sign::Negative;
            }
        },
    }
    r
}

/// A second hit on the same side changes nothing: once the ball moves away
/// from a side, touching that side again does not turn it back.
pub proof fn lemma_reflect_settles(heading: Heading, side: Collision)
    ensures
        reflected(reflected(heading, side), side) == reflected(heading, side),
{
}

proof fn lemma_score_grows(start: StepModel, hits: Seq<Hit>, n1: int, n2: int)
    requires
        0 <= n1 <= n2,
    ensures
        start.score <= after_hits(start, hits, n1).score <= after_hits(start, hits, n2).score,
    decreases n2,
{
    if n2 > n1 {
        lemma_score_grows(start, hits, n1, n2 - 1);
    } else if n1 > 0 {
        lemma_score_grows(start, hits, n1 - 1, n1 - 1);
    }
}

/// The score grows by one for each brick removed.
pub proof fn lemma_score_counts_bricks(start: StepModel, hits: Seq<Hit>, n: int)
    requires
        0 <= n,
    ensures
        after_hits(start, hits, n).score - start.score == after_hits(start, hits, n).despawned.len()
            - start.despawned.len(),
    decreases n,
{
    if n > 0 {
        lemma_score_counts_bricks(start, hits, n - 1);
    }
}

/// Handles the boxes the ball touches in one step, in order: each one
/// bounces the ball, and each brick among them is removed and scores.
pub fn resolve_hits(heading: Heading, score: usize, hits: &Vec<Hit>) -> (r: StepOutcome)
    requires
        step_outcome(heading, score as int, hits@).score <= usize::MAX,
    ensures
        r@ == step_outcome(heading, score as int, hits@),
        r.score == score + r.despawned@.len(),
{
    let ghost start = StepModel { heading, score: score as int, despawned: Seq::empty() };
    let mut out = StepOutcome { heading, score, despawned: Vec::new() };
    let mut i: usize = 0;
    while i < hits.len()
        invariant
            i <= hits@.len(),
            start == (StepModel { heading, score: score as int, despawned: Seq::empty() }),
            out@ == after_hits(start, hits@, i as int),
            after_hits(start, hits@, hits@.len() as int).score <= usize::MAX,
        decreases hits@.len() - i,
    {
        proof {
            lemma_score_grows(start, hits@, i + 1, hits@.len() as int);
        }
        let hit = hits[i];
        out.heading = reflect(out.heading, hit.side);
        if hit.brick {
            out.score = out.score + 1;
            out.despawned.push(hit.collider);
        }
        i = i + 1;
    }
    proof {
        lemma_score_counts_bricks(start, hits@, hits@.len() as int);
    }
    out
}

} // verus!
