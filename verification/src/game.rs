use crate::board::{Board, Point};
use crate::dice::{Dice, Die};
use crate::error::Error;
use crate::player::Player;
use crate::position::{no_piece_of, Position};
use vstd::prelude::*;

verus! {

/// Whether the game goes on or who has won it.
#[derive(Debug, Clone, Copy, PartialEq, Eq, Structural)]
pub enum GameStatus {
    InProgress,
    WhiteWin,
    BlackWin,
}

impl Default for GameStatus {
    /// A game starts in progress.
    fn default() -> (status: Self)
        ensures
            status == GameStatus::InProgress,
    {
        GameStatus::InProgress
    }
}

/// A single step: one piece leaves the point `from` and travels by `die`.
#[derive(Debug, Clone, Copy, PartialEq, Eq, Structural)]
pub struct Move {
    pub from: usize,
    pub die: Die,
}

impl Move {
    /// The move of one piece from the point `from` by `die`.
    pub fn new(from: usize, die: Die) -> (movement: Move)
        ensures
            movement == (Move { from, die }),
    {
        Self { from, die }
    }
}

/// A game in play: the board, whose turn it is, the dice of the turn once
/// they are rolled, and the status.
pub struct Game {
    board: Board,
    player_turn: Player,
    dice: Option<Dice>,
    status: GameStatus,
}

impl View for Game {
    type V = Position;

    closed spec fn view(&self) -> Position {
        Position {
            points: self.board.points@,
            bar: self.board.bar@,
            off: self.board.off@,
            turn: self.player_turn,
            dice: self.dice,
            status: self.status,
        }
    }
}

/// Whether `movement` occurs in `movements`.
fn contains_move(movements: &Vec<Move>, movement: &Move) -> (found: bool)
    ensures
        found == movements@.contains(*movement),
{
    let mut i: usize = 0;
    while i < movements.len()
        invariant
            i <= movements.len(),
            forall|j: int| 0 <= j < i ==> movements@[j] != *movement,
        decreases movements.len() - i,
    {
        if movements[i] == *movement {
            return true;
        }
        i += 1;
    }
    false
}

impl Game {
    /// The layout invariant, which every game made by `new` keeps.
    pub open spec fn wf(&self) -> bool {
        self@.wf()
    }

    /// A game at its start: the starting board, White to move, no dice.
    pub fn new() -> (game: Self)
        ensures
            game@ == Position::starting(),
            game.wf(),
    {
        Game {
            board: Board::default(),
            player_turn: Player::White,
            dice: None,
            status: GameStatus::default(),
        }
    }

    /// The board.
    pub fn board(&self) -> (board: &Board)
        ensures
            board.points@ == self@.points,
            board.bar@ == self@.bar,
            board.off@ == self@.off,
    {
        &self.board
    }

    /// The player to move.
    pub fn player_turn(&self) -> (player: Player)
        ensures
            player == self@.turn,
    {
        self.player_turn
    }

    /// The dice of the turn, if they are rolled.
    pub fn dice(&self) -> (dice: Option<Dice>)
        ensures
            dice == self@.dice,
    {
        self.dice
    }

    /// The status as of the last move.
    pub fn status(&self) -> (status: GameStatus)
        ensures
            status == self@.status,
    {
        self.status
    }

    /// Rolls two fresh dice for the turn, in place of any rolled before.
    pub fn roll_dice(&mut self)
        ensures
            match final(self)@.dice {
                Some(dice) => dice.in_range(),
                None => false,
            },
            final(self)@ == (Position { dice: final(self)@.dice, ..old(self)@ }),
            old(self).wf() ==> final(self).wf(),
    {
        self.set_dice(Dice::roll());
    }

    /// Makes `dice` the dice of the turn, in place of any rolled before.
    pub fn set_dice(&mut self, dice: Dice)
        ensures
            final(self)@ == (Position { dice: Some(dice), ..old(self)@ }),
            old(self).wf() ==> final(self).wf(),
    {
        self.dice = Some(dice);
    }

    /// The point on which `movement` lands, or `None` where it leaves the
    /// board.
    pub fn destination(&self, movement: &Move) -> (to: Option<usize>)
        ensures
            match to {
                Some(t) => t == self@.destination(*movement) && t < 24,
                None => !(0 <= self@.destination(*movement) < 24),
            },
    {
        let from = movement.from;
        let die_value: usize = movement.die.value() as usize;
        if self.board.bar[self.player_turn.index()] != 0 {
            match self.player_turn {
                Player::White => Some(die_value - 1),
                Player::Black => Some(24 - die_value),
            }
        } else {
            match self.player_turn {
                Player::White => if from < 24 - die_value {
                    Some(from + die_value)
                } else {
                    None
                },
                Player::Black => if from >= die_value && from - die_value < 24 {
                    Some(from - die_value)
                } else {
                    None
                },
            }
        }
    }

    /// Whether `movement` lands on a point of the board that the player to
    /// move may enter.
    pub fn is_valid_movement(&self, movement: &Move) -> (valid: bool)
        ensures
            valid == self@.is_legal(*movement),
    {
        match self.destination(movement) {
            None => false,
            Some(to) => match self.board.points[to] {
                Point::Empty => true,
                Point::Occupied(player, count) => player == self.player_turn || count == 1,
            },
        }
    }

    /// The legal moves of the player to move: for each point that holds a
    /// piece of theirs, in ascending order, the first die and then the second,
    /// where legal. Empty while no dice are rolled. Equal dice list a move
    /// twice. A piece on the bar changes where a move lands, not which sources
    /// are listed: nothing forces the player to enter from the bar first.
    pub fn valid_movements(&self) -> (movements: Vec<Move>)
        ensures
            movements@ == self@.legal_moves(),
            forall|movement: Move| movements@.contains(movement) <==> self@.offers(movement),
    {
        let mut movements: Vec<Move> = Vec::new();
        let ghost cands = self@.candidates();
        let ghost test = self@.playable();
        if let Some(dice) = self.dice {
            let dice_values = dice.values();
            let mut from: usize = 0;
            proof {
                assert(cands.take(0) =~= Seq::<Move>::empty());
                cands.take(0).lemma_filter_len(test);
            }
            while from < 24
                invariant
                    from <= 24,
                    self.dice == Some(dice),
                    dice.in_range(),
                    dice_values@.len() == 2,
                    dice_values@[0] == dice.0.face(),
                    dice_values@[1] == dice.1.face(),
                    cands == self@.candidates(),
                    test == self@.playable(),
                    movements@ == cands.take(2 * from).filter(test),
                decreases 24 - from,
            {
                proof {
                    self@.lemma_next_candidate(2 * from);
                    self@.lemma_next_candidate(2 * from + 1);
                }
                if let Point::Occupied(player, _) = self.board.points[from] {
                    if player == self.player_turn {
                        let mut turn: usize = 0;
                        while turn < 2
                            invariant
                                from < 24,
                                turn <= 2,
                                self@.owns(from as int),
                                self.dice == Some(dice),
                                dice.in_range(),
                                dice_values@.len() == 2,
                                dice_values@[0] == dice.0.face(),
                                dice_values@[1] == dice.1.face(),
                                cands == self@.candidates(),
                                test == self@.playable(),
                                movements@ == cands.take(2 * from + turn).filter(test),
                            decreases 2 - turn,
                        {
                            let die_value = dice_values[turn];
                            proof {
                                Die::law_made_from(die_value);
                            }
                            let movement = Move::new(from, Die::try_from(die_value).unwrap());
                            proof {
                                movement.die.law_face_decides(
                                    if turn == 0 {
                                        dice.0
                                    } else {
                                        dice.1
                                    },
                                );
                                assert(movement == cands[2 * from + turn]);
                                self@.lemma_next_candidate(2 * from + turn);
                            }
                            if self.is_valid_movement(&movement) {
                                movements.push(movement);
                            }
                            turn += 1;
                        }
                    }
                }
                from += 1;
            }
            proof {
                assert(cands.take(48) =~= cands);
            }
        } else {
            proof {
                cands.lemma_filter_len(test);
            }
        }
        proof {
            assert(movements@ =~= self@.legal_moves());
            assert forall|movement: Move|
                movements@.contains(movement) <==> self@.offers(movement) by {
                self@.lemma_legal_moves_are_offered(movement);
            }
        }
        movements
    }

    /// Whether the player to move has no piece left on any point.
    pub fn check_win(&self) -> (won: bool)
        ensures
            won == no_piece_of(self@.points, self@.turn),
    {
        let mut held: usize = 0;
        let mut i: usize = 0;
        while i < 24
            invariant
                i <= 24,
                held <= i,
                held == 0 <==> forall|j: int|
                    0 <= j < i ==> !(#[trigger] self.board.points@[j]).held_by(self.player_turn),
            decreases 24 - i,
        {
            match self.board.points[i] {
                Point::Empty => {},
                Point::Occupied(player, _) => {
                    if player == self.player_turn {
                        held += 1;
                    }
                },
            }
            i += 1;
        }
        held == 0
    }

    /// Applies `movement` if it is one of the legal moves as of now, and
    /// fails with `InvalidMove`, changing nothing, if it is not. A piece of
    /// the mover leaves the source and lands on the destination; a single
    /// opposing piece found there goes to its owner's bar. The status is then
    /// set anew.
    pub fn make_movement(&mut self, movement: Move) -> (r: Result<(), Error>)
        requires
            old(self).wf(),
        ensures
            final(self).wf(),
            r is Ok <==> old(self)@.offers(movement),
            r is Ok <==> old(self)@.legal_moves().contains(movement),
            r is Ok ==> final(self)@ == old(self)@.after_move(movement),
            r is Err ==> r == Err::<(), Error>(Error::InvalidMove) && final(self)@ == old(self)@,
    {
        let movements = self.valid_movements();
        if !contains_move(&movements, &movement) {
            return Err(Error::InvalidMove);
        }
        let ghost before = self@;
        proof {
            before.lemma_landing_bounds(movement);
        }
        let from = movement.from;
        let mover = self.player_turn;
        match (self.board.points[from], self.destination(&movement)) {
            (Point::Occupied(player, count), Some(to)) => {
                self.board.points[from] = if count > 1 {
                    Point::Occupied(player, count - 1)
                } else {
                    Point::Empty
                };
                match self.board.points[to] {
                    Point::Empty => {
                        self.board.points[to] = Point::Occupied(mover, 1);
                    },
                    Point::Occupied(existing_player, existing_count) => {
                        if existing_player == mover {
                            self.board.points[to] = Point::Occupied(mover, existing_count + 1);
                        } else {
                            assert(existing_count == 1);
                            self.board.points[to] = Point::Occupied(mover, 1);
                            let slot = existing_player.index();
                            let waiting = self.board.bar[slot];
                            self.board.bar[slot] = waiting + 1;
                        }
                    },
                }
                let status = match (self.check_win(), player) {
                    (true, Player::White) => GameStatus::WhiteWin,
                    (true, Player::Black) => GameStatus::BlackWin,
                    (false, _) => GameStatus::InProgress,
                };
                self.status = status;
                proof {
                    let after = before.after_move(movement);
                    assert(self@.points =~= after.points);
                    assert(self@.bar =~= after.bar);
                    assert(self@ == after);
                }
                Ok(())
            },
            _ => {
                proof {
                    assert(false);
                }
                Err(Error::InvalidMove)
            },
        }
    }

    /// Hands the turn to the other player and clears the dice.
    pub fn switch_turn(&mut self)
        ensures
            final(self)@ == (Position { turn: old(self)@.turn.other(), dice: None, ..old(self)@ }),
            old(self).wf() ==> final(self).wf(),
    {
        self.player_turn = match self.player_turn {
            Player::White => Player::Black,
            Player::Black => Player::White,
        };
        self.dice = None;
    }
}

} // verus!
