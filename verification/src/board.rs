use crate::player::Player;
use vstd::prelude::*;

verus! {

/// One of the 24 positions of the board.
#[derive(Debug, Clone, Copy, PartialEq, Eq, Structural)]
pub enum Point {
    Empty,
    Occupied(Player, u8),
}

impl Point {
    /// An occupied point holds at least one piece.
    pub open spec fn wf(self) -> bool {
        match self {
            Point::Empty => true,
            Point::Occupied(_, count) => count >= 1,
        }
    }

    /// Whether `player` has a piece on this point.
    pub open spec fn held_by(self, player: Player) -> bool {
        match self {
            Point::Empty => false,
            Point::Occupied(owner, _) => owner == player,
        }
    }

    /// Number of pieces `player` has on this point.
    pub open spec fn pieces_of(self, player: Player) -> nat {
        match self {
            Point::Empty => 0,
            Point::Occupied(owner, count) => if owner == player {
                count as nat
            } else {
                0
            },
        }
    }

    /// Whether `mover` may land here: the point is empty, its own, or holds a
    /// single opposing piece.
    pub open spec fn open_to(self, mover: Player) -> bool {
        match self {
            Point::Empty => true,
            Point::Occupied(owner, count) => owner == mover || count == 1,
        }
    }

    /// Whether landing here as `mover` sends an opposing piece to the bar.
    pub open spec fn captured_by(self, mover: Player) -> bool {
        match self {
            Point::Empty => false,
            Point::Occupied(owner, _) => owner != mover,
        }
    }

    /// This point with one piece taken away.
    pub open spec fn without_one(self) -> Point {
        match self {
            Point::Empty => Point::Empty,
            Point::Occupied(owner, count) => if count > 1 {
                Point::Occupied(owner, (count - 1) as u8)
            } else {
                Point::Empty
            },
        }
    }

    /// This point after a piece of `mover` has landed on it.
    pub open spec fn with_one_of(self, mover: Player) -> Point {
        match self {
            Point::Empty => Point::Occupied(mover, 1),
            Point::Occupied(owner, count) => if owner == mover {
                Point::Occupied(mover, (count + 1) as u8)
            } else {
                Point::Occupied(mover, 1)
            },
        }
    }
}

/// Number of pieces `player` has on the points of `points`.
pub open spec fn pieces_on(points: Seq<Point>, player: Player) -> nat
    decreases points.len(),
{
    if points.len() == 0 {
        0
    } else {
        pieces_on(points.drop_last(), player) + points.last().pieces_of(player)
    }
}

/// The point at `i` in the starting layout.
pub open spec fn starting_point(i: int) -> Point {
    if i == 0 {
        Point::Occupied(Player::Black, 2)
    } else if i == 5 {
        Point::Occupied(Player::White, 5)
    } else if i == 7 {
        Point::Occupied(Player::White, 3)
    } else if i == 11 {
        Point::Occupied(Player::Black, 5)
    } else if i == 12 {
        Point::Occupied(Player::White, 5)
    } else if i == 16 {
        Point::Occupied(Player::Black, 3)
    } else if i == 18 {
        Point::Occupied(Player::Black, 5)
    } else if i == 23 {
        Point::Occupied(Player::White, 2)
    } else {
        Point::Empty
    }
}

/// The 24 points of the starting layout.
pub open spec fn starting_points() -> Seq<Point> {
    Seq::new(24, |i: int| starting_point(i))
}

/// The invariant of a layout: 24 well-formed points, two bar and two off
/// counters, and 15 pieces for each player over points, bar and off.
pub open spec fn layout_wf(points: Seq<Point>, bar: Seq<u8>, off: Seq<u8>) -> bool {
    &&& points.len() == 24
    &&& bar.len() == 2
    &&& off.len() == 2
    &&& forall|i: int| 0 <= i < 24 ==> (#[trigger] points[i]).wf()
    &&& pieces_on(points, Player::White) + bar[0] + off[0] == 15
    &&& pieces_on(points, Player::Black) + bar[1] + off[1] == 15
}

/// A player has no piece on points that are all empty.
pub proof fn lemma_pieces_on_empty(points: Seq<Point>, player: Player)
    requires
        forall|i: int| 0 <= i < points.len() ==> points[i] == Point::Empty,
    ensures
        pieces_on(points, player) == 0,
    decreases points.len(),
{
    if points.len() > 0 {
        lemma_pieces_on_empty(points.drop_last(), player);
    }
}

/// Replacing one point changes a player's count by the difference at that
/// point.
pub proof fn lemma_pieces_on_update(points: Seq<Point>, i: int, point: Point, player: Player)
    requires
        0 <= i < points.len(),
    ensures
        pieces_on(points.update(i, point), player) + points[i].pieces_of(player) == pieces_on(
            points,
            player,
        ) + point.pieces_of(player),
    decreases points.len(),
{
    let updated = points.update(i, point);
    if i == points.len() - 1 {
        assert(updated.drop_last() =~= points.drop_last());
    } else {
        lemma_pieces_on_update(points.drop_last(), i, point, player);
        assert(updated.drop_last() =~= points.drop_last().update(i, point));
    }
}

/// A player's count over all points is at least the count on any one point.
pub proof fn lemma_pieces_on_bounds(points: Seq<Point>, i: int, player: Player)
    requires
        0 <= i < points.len(),
    ensures
        points[i].pieces_of(player) <= pieces_on(points, player),
    decreases points.len(),
{
    if i < points.len() - 1 {
        lemma_pieces_on_bounds(points.drop_last(), i, player);
    }
}

/// The points of the game with the pieces waiting to re-enter (`bar`) and the
/// pieces borne off (`off`), each indexed by `Player::index`.
pub struct Board {
    pub points: [Point; 24],
    pub bar: [u8; 2],
    pub off: [u8; 2],
}

impl Board {
    /// The layout invariant, on this board.
    pub open spec fn wf(self) -> bool {
        layout_wf(self.points@, self.bar@, self.off@)
    }

    /// Whether this is the starting board.
    pub open spec fn is_starting(self) -> bool {
        &&& self.points@ == starting_points()
        &&& self.bar@ == seq![0u8, 0u8]
        &&& self.off@ == seq![0u8, 0u8]
    }
}

/// Placing `point` on the empty point `i` adds its pieces to each player's
/// count.
proof fn lemma_place_on_empty(before: Seq<Point>, i: int, point: Point)
    requires
        0 <= i < before.len(),
        before[i] == Point::Empty,
    ensures
        pieces_on(before.update(i, point), Player::White) == pieces_on(before, Player::White)
            + point.pieces_of(Player::White),
        pieces_on(before.update(i, point), Player::Black) == pieces_on(before, Player::Black)
            + point.pieces_of(Player::Black),
{
    lemma_pieces_on_update(before, i, point, Player::White);
    lemma_pieces_on_update(before, i, point, Player::Black);
}

/// The starting layout holds 15 pieces of each player on its points, and
/// with nothing on the bar or borne off it meets the layout invariant.
pub proof fn law_starting_layout()
    ensures
        pieces_on(starting_points(), Player::White) == 15,
        pieces_on(starting_points(), Player::Black) == 15,
        layout_wf(starting_points(), seq![0u8, 0u8], seq![0u8, 0u8]),
{
    let step0 = Seq::new(24, |i: int| Point::Empty);
    let step1 = step0.update(0, Point::Occupied(Player::Black, 2));
    let step2 = step1.update(5, Point::Occupied(Player::White, 5));
    let step3 = step2.update(7, Point::Occupied(Player::White, 3));
    let step4 = step3.update(11, Point::Occupied(Player::Black, 5));
    let step5 = step4.update(12, Point::Occupied(Player::White, 5));
    let step6 = step5.update(16, Point::Occupied(Player::Black, 3));
    let step7 = step6.update(18, Point::Occupied(Player::Black, 5));
    let step8 = step7.update(23, Point::Occupied(Player::White, 2));
    lemma_pieces_on_empty(step0, Player::White);
    lemma_pieces_on_empty(step0, Player::Black);
    lemma_place_on_empty(step0, 0, Point::Occupied(Player::Black, 2));
    lemma_place_on_empty(step1, 5, Point::Occupied(Player::White, 5));
    lemma_place_on_empty(step2, 7, Point::Occupied(Player::White, 3));
    lemma_place_on_empty(step3, 11, Point::Occupied(Player::Black, 5));
    lemma_place_on_empty(step4, 12, Point::Occupied(Player::White, 5));
    lemma_place_on_empty(step5, 16, Point::Occupied(Player::Black, 3));
    lemma_place_on_empty(step6, 18, Point::Occupied(Player::Black, 5));
    lemma_place_on_empty(step7, 23, Point::Occupied(Player::White, 2));
    assert(step8 =~= starting_points());
}

impl Default for Board {
    /// The starting board.
    fn default() -> (board: Self)
        ensures
            board.is_starting(),
            board.wf(),
    {
        let mut points = [Point::Empty;24];
        points[0] = Point::Occupied(Player::Black, 2);
        points[5] = Point::Occupied(Player::White, 5);
        points[7] = Point::Occupied(Player::White, 3);
        points[11] = Point::Occupied(Player::Black, 5);
        points[12] = Point::Occupied(Player::White, 5);
        points[16] = Point::Occupied(Player::Black, 3);
        points[18] = Point::Occupied(Player::Black, 5);
        points[23] = Point::Occupied(Player::White, 2);
        let board = Board { points, bar: [0;2], off: [0;2] };
        proof {
            law_starting_layout();
            assert(board.points@ =~= starting_points());
            assert(board.bar@ =~= seq![0u8, 0u8]);
            assert(board.off@ =~= seq![0u8, 0u8]);
        }
        board
    }
}

} // verus!
