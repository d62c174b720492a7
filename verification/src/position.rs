use crate::board::{
    layout_wf, lemma_pieces_on_bounds, lemma_pieces_on_update, starting_points, Point,
};
use crate::dice::Dice;
use crate::game::{GameStatus, Move};
use crate::player::Player;
use vstd::prelude::*;

verus! {

/// Whether `player` has no piece on any point of `points`.
pub open spec fn no_piece_of(points: Seq<Point>, player: Player) -> bool {
    forall|i: int| 0 <= i < points.len() ==> !(#[trigger] points[i]).held_by(player)
}

/// The status after `mover` has moved and the points are `points`.
pub open spec fn status_for(points: Seq<Point>, mover: Player) -> GameStatus {
    if no_piece_of(points, mover) {
        match mover {
            Player::White => GameStatus::WhiteWin,
            Player::Black => GameStatus::BlackWin,
        }
    } else {
        GameStatus::InProgress
    }
}

/// The mathematical state of a game.
pub struct Position {
    pub points: Seq<Point>,
    pub bar: Seq<u8>,
    pub off: Seq<u8>,
    pub turn: Player,
    pub dice: Option<Dice>,
    pub status: GameStatus,
}

impl Position {
    /// The layout invariant: 24 well-formed points and 15 pieces a side.
    pub open spec fn wf(self) -> bool {
        layout_wf(self.points, self.bar, self.off)
    }

    /// The state of a new game.
    pub open spec fn starting() -> Position {
        Position {
            points: starting_points(),
            bar: seq![0u8, 0u8],
            off: seq![0u8, 0u8],
            turn: Player::White,
            dice: None,
            status: GameStatus::InProgress,
        }
    }

    /// Where `movement` would land. With a piece of the mover on the bar the
    /// die alone decides: White enters at `die - 1`, Black at `24 - die`.
    /// Otherwise White travels up from `from` and Black down. The result may
    /// lie off the board.
    pub open spec fn destination(self, movement: Move) -> int {
        if self.bar[self.turn.slot()] != 0 {
            match self.turn {
                Player::White => movement.die.face() - 1,
                Player::Black => 24 - movement.die.face(),
            }
        } else {
            match self.turn {
                Player::White => movement.from + movement.die.face(),
                Player::Black => movement.from - movement.die.face(),
            }
        }
    }

    /// Whether `movement` lands on the board, on a point that is empty, the
    /// mover's own, or held by a single opposing piece.
    pub open spec fn is_legal(self, movement: Move) -> bool {
        let to = self.destination(movement);
        0 <= to < 24 && self.points[to].open_to(self.turn)
    }

    /// Whether `from` is a point that holds a piece of the player to move.
    pub open spec fn owns(self, from: int) -> bool {
        0 <= from < 24 && self.points[from].held_by(self.turn)
    }

    /// The test a candidate has to pass to be listed.
    pub open spec fn playable(self) -> spec_fn(Move) -> bool {
        |movement: Move| self.owns(movement.from as int) && self.is_legal(movement)
    }

    /// Every pairing of a point with a die of the turn, point by point, the
    /// first die before the second. Empty while no dice are rolled.
    pub open spec fn candidates(self) -> Seq<Move> {
        match self.dice {
            None => Seq::empty(),
            Some(dice) => Seq::new(
                48,
                |k: int|
                    Move {
                        from: (k / 2) as usize,
                        die: if k % 2 == 0 {
                            dice.0
                        } else {
                            dice.1
                        },
                    },
            ),
        }
    }

    /// The legal moves, in the order of `candidates`.
    pub open spec fn legal_moves(self) -> Seq<Move> {
        self.candidates().filter(self.playable())
    }

    /// Whether `movement` is one that the player to move may make now: its
    /// die is one of the dice rolled, its source holds a piece of the mover,
    /// and it is legal.
    pub open spec fn offers(self, movement: Move) -> bool {
        &&& match self.dice {
            None => false,
            Some(dice) => movement.die == dice.0 || movement.die == dice.1,
        }
        &&& self.owns(movement.from as int)
        &&& self.is_legal(movement)
    }

    /// The state after `movement`: a piece leaves the source, then lands on
    /// the destination, sending a single opposing piece there to the bar.
    pub open spec fn after_move(self, movement: Move) -> Position {
        let from = movement.from as int;
        let to = self.destination(movement);
        let lifted = self.points.update(from, self.points[from].without_one());
        let points = lifted.update(to, lifted[to].with_one_of(self.turn));
        let rival = self.turn.other().slot();
        let bar = if lifted[to].captured_by(self.turn) {
            self.bar.update(rival, (self.bar[rival] + 1) as u8)
        } else {
            self.bar
        };
        Position {
            points,
            bar,
            off: self.off,
            turn: self.turn,
            dice: self.dice,
            status: status_for(points, self.turn),
        }
    }

    /// Filtering one candidate more appends it where it passes the test and
    /// changes nothing where it fails.
    pub proof fn lemma_next_candidate(self, k: int)
        requires
            0 <= k < self.candidates().len(),
        ensures
            self.candidates().take(k + 1).filter(self.playable()) == if self.owns(
                self.candidates()[k].from as int,
            ) && self.is_legal(self.candidates()[k]) {
                self.candidates().take(k).filter(self.playable()).push(self.candidates()[k])
            } else {
                self.candidates().take(k).filter(self.playable())
            },
    {
        let cands = self.candidates();
        assert(cands.take(k + 1) =~= cands.take(k).push(cands[k]));
        cands.take(k).lemma_filter_push(cands[k], self.playable());
    }

    /// The legal moves are exactly the moves that the position offers.
    pub proof fn lemma_legal_moves_are_offered(self, movement: Move)
        ensures
            self.legal_moves().contains(movement) <==> self.offers(movement),
    {
        let cands = self.candidates();
        let test = self.playable();
        if self.legal_moves().contains(movement) {
            let i = choose|i: int|
                0 <= i < cands.filter(test).len() && cands.filter(test)[i] == movement;
            cands.lemma_filter_pred(test, i);
            cands.lemma_filter_contains_rev(test, movement);
            let k = choose|k: int| 0 <= k < cands.len() && cands[k] == movement;
            assert(cands[k] == movement);
            assert(self.offers(movement));
        }
        if self.offers(movement) {
            let dice = self.dice->0;
            let k: int = if movement.die == dice.0 {
                2 * movement.from
            } else {
                2 * movement.from + 1
            };
            assert(cands[k] == movement);
            assert(test(cands[k]));
            cands.lemma_filter_contains(test, k);
        }
    }
}

impl Position {
    /// What a legal move finds once the piece has left its source: on a
    /// point of the mover fewer than 15 pieces, on a point of the opponent a
    /// single piece and room on the opponent's bar. The state after the move
    /// keeps the layout invariant.
    pub proof fn lemma_landing_bounds(self, movement: Move)
        requires
            self.wf(),
            self.offers(movement),
        ensures
            self.after_move(movement).wf(),
            ({
                let from = movement.from as int;
                let to = self.destination(movement);
                let lifted = self.points.update(from, self.points[from].without_one());
                match lifted[to] {
                    Point::Empty => true,
                    Point::Occupied(owner, count) => if owner == self.turn {
                        count < 15
                    } else {
                        count == 1 && self.bar[owner.slot()] < 15
                    },
                }
            }),
    {
        let from = movement.from as int;
        let to = self.destination(movement);
        let mover = self.turn;
        let rival = mover.other();
        let lifted = self.points.update(from, self.points[from].without_one());
        let landed = lifted[to].with_one_of(mover);
        let points = lifted.update(to, landed);
        lemma_pieces_on_update(self.points, from, self.points[from].without_one(), mover);
        lemma_pieces_on_update(self.points, from, self.points[from].without_one(), rival);
        lemma_pieces_on_bounds(lifted, to, mover);
        lemma_pieces_on_bounds(lifted, to, rival);
        lemma_pieces_on_update(lifted, to, landed, mover);
        lemma_pieces_on_update(lifted, to, landed, rival);
        assert(self.points[from].wf());
        assert(self.points[to].wf());
        assert(lifted[to].wf());
        assert(self.after_move(movement).points == points);
        assert forall|i: int| 0 <= i < 24 implies (#[trigger] points[i]).wf() by {
            assert(self.points[i].wf());
        }
    }

    /// A legal move keeps the layout invariant, 15 pieces a side among them,
    /// and leaves the game in progress: the piece that moved stands on a
    /// point.
    pub proof fn law_move_keeps_layout(self, movement: Move)
        requires
            self.wf(),
            self.offers(movement),
        ensures
            self.after_move(movement).wf(),
            self.after_move(movement).status == GameStatus::InProgress,
    {
        self.lemma_landing_bounds(movement);
        let after = self.after_move(movement);
        assert(after.points[self.destination(movement)].held_by(self.turn));
    }

    /// After a legal move the mover still holds the source if and only if
    /// another piece of theirs stood there, or the piece came back in on that
    /// very point; where the mover holds it no longer, no move from it is
    /// offered.
    pub proof fn law_source_after_move(self, movement: Move)
        requires
            self.wf(),
            self.offers(movement),
        ensures
            self.after_move(movement).owns(movement.from as int) <==> (self.points[movement.from as int].pieces_of(
                self.turn,
            ) > 1 || self.destination(movement) == movement.from),
            !self.after_move(movement).owns(movement.from as int) ==> forall|next: Move|
                next.from == movement.from ==> !(#[trigger] self.after_move(movement).offers(next)),
    {
        assert(self.points[movement.from as int].wf());
    }

    /// Landing on a single opposing piece leaves the point to the mover with
    /// one piece, and adds exactly one to the opponent's bar and nothing to
    /// the mover's.
    pub proof fn law_capture(self, movement: Move)
        requires
            self.wf(),
            self.offers(movement),
            self.points[self.destination(movement)] == Point::Occupied(self.turn.other(), 1),
        ensures
            self.after_move(movement).points[self.destination(movement)] == Point::Occupied(
                self.turn,
                1,
            ),
            self.after_move(movement).bar[self.turn.other().slot()] == self.bar[self.turn.other().slot()]
                + 1,
            self.after_move(movement).bar[self.turn.slot()] == self.bar[self.turn.slot()],
    {
        self.lemma_landing_bounds(movement);
    }

    /// A move onto a point that holds two or more opposing pieces is never
    /// among the legal moves.
    pub proof fn law_blocked_point_not_offered(self, movement: Move, count: u8)
        requires
            count >= 2,
            0 <= self.destination(movement) < 24,
            self.points[self.destination(movement)] == Point::Occupied(self.turn.other(), count),
        ensures
            !self.legal_moves().contains(movement),
            !self.offers(movement),
    {
        self.lemma_legal_moves_are_offered(movement);
    }

    /// From the start White has a legal move whatever the dice show.
    pub proof fn law_opening_has_moves(dice: Dice)
        requires
            dice.in_range(),
        ensures
            (Position { dice: Some(dice), ..Position::starting() }).legal_moves().len() > 0,
    {
        let opening = Position { dice: Some(dice), ..Position::starting() };
        let from: usize = if dice.0.face() == 6 {
            7
        } else {
            5
        };
        let movement = Move { from, die: dice.0 };
        assert(opening.offers(movement));
        opening.lemma_legal_moves_are_offered(movement);
    }
}

} // verus!
