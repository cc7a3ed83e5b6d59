//! The game engine and the coordinate parser.
//!
//! A [`Game`] owns a flat 9-cell board (indexed as `column + row * 3`) and
//! the player whose turn it is. A [`Point`] is a validated coordinate:
//! its constructor is the only gate, so any constructed `Point` is in range.

use vstd::prelude::*;

verus! {

/// One of the two players. `O` always moves first.
#[derive(Clone, Copy, Debug, PartialEq, Eq, Structural)]
pub enum Player {
    O,
    X,
}

impl Player {
    /// The display name of the player: `"Player O"` or `"Player X"`.
    pub fn to_string(&self) -> (r: String)
        ensures
            r@ == player_text(*self),
    {
        match self {
            Player::O => "Player O".to_owned(),
            Player::X => "Player X".to_owned(),
        }
    }
}

/// The display name of player `p`.
pub open spec fn player_text(p: Player) -> Seq<char> {
    match p {
        Player::O => "Player O"@,
        Player::X => "Player X"@,
    }
}

/// The player whose turn follows `p`'s.
pub open spec fn other_player(p: Player) -> Player {
    match p {
        Player::O => Player::X,
        Player::X => Player::O,
    }
}

/// Why a placement was rejected.
#[derive(Clone, Copy, Debug, PartialEq, Eq, Structural)]
pub enum PlaceError {
    /// The target cell is already occupied.
    Taken,
}

/// The outcome of a game, derived from the board on demand.
#[derive(Clone, Copy, Debug, PartialEq, Eq, Structural)]
pub enum GameResult {
    Win(Player),
    Draw,
    Undetermined,
}

/// The flat index of the cell at column `x`, row `y`.
pub open spec fn cell_index(x: int, y: int) -> int {
    x + y * 3
}

/// Cell `i` of the board is occupied by player `p`.
pub open spec fn cell_is(board: Seq<Option<Player>>, i: int, p: Player) -> bool {
    board[i] == Some(p)
}

/// Player `p` occupies one of the 8 winning lines:
/// 3 rows, 3 columns, 2 diagonals.
pub open spec fn wins(board: Seq<Option<Player>>, p: Player) -> bool {
    ||| cell_is(board, 0, p) && cell_is(board, 1, p) && cell_is(board, 2, p)
    ||| cell_is(board, 3, p) && cell_is(board, 4, p) && cell_is(board, 5, p)
    ||| cell_is(board, 6, p) && cell_is(board, 7, p) && cell_is(board, 8, p)
    ||| cell_is(board, 0, p) && cell_is(board, 3, p) && cell_is(board, 6, p)
    ||| cell_is(board, 1, p) && cell_is(board, 4, p) && cell_is(board, 7, p)
    ||| cell_is(board, 2, p) && cell_is(board, 5, p) && cell_is(board, 8, p)
    ||| cell_is(board, 0, p) && cell_is(board, 4, p) && cell_is(board, 8, p)
    ||| cell_is(board, 2, p) && cell_is(board, 4, p) && cell_is(board, 6, p)
}

/// Every cell of the board is occupied.
pub open spec fn board_full(board: Seq<Option<Player>>) -> bool {
    forall|i: int| 0 <= i < 9 ==> board[i] is Some
}

/// The outcome derived from a board: a win for the first player is
/// checked before a win for the second, then a full board is a draw,
/// and anything else is undetermined.
pub open spec fn result_of(board: Seq<Option<Player>>) -> GameResult {
    if wins(board, Player::O) {
        GameResult::Win(Player::O)
    } else if wins(board, Player::X) {
        GameResult::Win(Player::X)
    } else if board_full(board) {
        GameResult::Draw
    } else {
        GameResult::Undetermined
    }
}

/// The glyph shown for one cell: `'_'` when empty, else the occupant's mark.
pub open spec fn cell_char(c: Option<Player>) -> char {
    match c {
        None => '_',
        Some(Player::O) => 'O',
        Some(Player::X) => 'X',
    }
}

/// The display form of row `y` of the board: a blank separator line,
/// then the three cell glyphs two spaces apart.
pub open spec fn render_row(board: Seq<Option<Player>>, y: int) -> Seq<char> {
    seq![
        '\n',
        '\n',
        cell_char(board[y * 3]),
        ' ',
        ' ',
        cell_char(board[y * 3 + 1]),
        ' ',
        ' ',
        cell_char(board[y * 3 + 2]),
    ]
}

/// The display form of the whole board: its three rows, top to bottom.
pub open spec fn render_board(board: Seq<Option<Player>>) -> Seq<char> {
    render_row(board, 0) + render_row(board, 1) + render_row(board, 2)
}

/// The game state: the 9-cell board and the player whose turn is active.
#[derive(Debug)]
pub struct Game {
    board: [Option<Player>; 9],
    turn: Player,
}

impl Game {
    /// The board as a sequence of 9 cells, indexed as `column + row * 3`.
    pub closed spec fn board_view(&self) -> Seq<Option<Player>> {
        self.board@
    }

    /// The player whose turn is active.
    pub closed spec fn turn_view(&self) -> Player {
        self.turn
    }

    /// A fresh game: every cell empty, and `O` to move.
    pub fn new() -> (g: Game)
        ensures
            g.board_view().len() == 9,
            forall|i: int| 0 <= i < 9 ==> g.board_view()[i] is None,
            g.turn_view() == Player::O,
    {
        Game { board: [None, None, None, None, None, None, None, None, None], turn: Player::O }
    }

    /// The active player; a pure read.
    pub fn get_turn(&self) -> (p: Player)
        ensures
            p == self.turn_view(),
    {
        self.turn
    }

    /// Derives the outcome from the current board, in the documented
    /// order: first player's win, second player's win, draw, undetermined.
    pub fn get_result(&self) -> (r: GameResult)
        ensures
            r == result_of(self.board_view()),
    {
        if self.is_player_win(Player::O) {
            GameResult::Win(Player::O)
        } else if self.is_player_win(Player::X) {
            GameResult::Win(Player::X)
        } else if self.is_board_full() {
            GameResult::Draw
        } else {
            GameResult::Undetermined
        }
    }

    /// Marks the cell at `point` with the active player. The turn does not
    /// advance: the caller invokes [`Game::proceed`] separately. Fails with
    /// [`PlaceError::Taken`], changing nothing, when the cell is occupied.
    pub fn place(&mut self, point: &Point) -> (r: Result<(), PlaceError>)
        ensures
            old(self).board_view()[cell_index(point.spec_x(), point.spec_y())] is Some ==> {
                &&& r == Err::<(), PlaceError>(PlaceError::Taken)
                &&& final(self).board_view() == old(self).board_view()
                &&& final(self).turn_view() == old(self).turn_view()
            },
            old(self).board_view()[cell_index(point.spec_x(), point.spec_y())] is None ==> {
                &&& r == Ok::<(), PlaceError>(())
                &&& final(self).board_view() == old(self).board_view().update(
                    cell_index(point.spec_x(), point.spec_y()),
                    Some(old(self).turn_view()),
                )
                &&& final(self).turn_view() == old(self).turn_view()
            },
    {
        if let Some(_) = self.get_player_at_point(point) {
            Err(PlaceError::Taken)
        } else {
            self.set_player_at_point(point);
            Ok(())
        }
    }

    /// The occupant of the cell at `point`, if any.
    fn get_player_at_point(&self, point: &Point) -> (r: Option<Player>)
        ensures
            r == self.board_view()[cell_index(point.spec_x(), point.spec_y())],
    {
        proof {
            use_type_invariant(point);
        }
        self.board[point.x + point.y * 3]
    }

    /// Writes the active player's mark into the cell at `point`.
    fn set_player_at_point(&mut self, point: &Point)
        ensures
            final(self).board_view() == old(self).board_view().update(
                cell_index(point.spec_x(), point.spec_y()),
                Some(old(self).turn_view()),
            ),
            final(self).turn_view() == old(self).turn_view(),
    {
        proof {
            use_type_invariant(point);
        }
        self.board[point.x + point.y * 3] = Some(self.turn);
    }

    /// Cell `i` is occupied by `player`.
    fn cell_occupied_by(&self, i: usize, player: Player) -> (r: bool)
        requires
            i < 9,
        ensures
            r == cell_is(self.board_view(), i as int, player),
    {
        match self.board[i] {
            Some(p) => p == player,
            None => false,
        }
    }

    /// `player` occupies one of the 8 winning lines.
    fn is_player_win(&self, player: Player) -> (r: bool)
        ensures
            r == wins(self.board_view(), player),
    {
        (self.cell_occupied_by(0, player) && self.cell_occupied_by(1, player)
            && self.cell_occupied_by(2, player))
            || (self.cell_occupied_by(3, player) && self.cell_occupied_by(4, player)
                && self.cell_occupied_by(5, player))
            || (self.cell_occupied_by(6, player) && self.cell_occupied_by(7, player)
                && self.cell_occupied_by(8, player))
            || (self.cell_occupied_by(0, player) && self.cell_occupied_by(3, player)
                && self.cell_occupied_by(6, player))
            || (self.cell_occupied_by(1, player) && self.cell_occupied_by(4, player)
                && self.cell_occupied_by(7, player))
            || (self.cell_occupied_by(2, player) && self.cell_occupied_by(5, player)
                && self.cell_occupied_by(8, player))
            || (self.cell_occupied_by(0, player) && self.cell_occupied_by(4, player)
                && self.cell_occupied_by(8, player))
            || (self.cell_occupied_by(2, player) && self.cell_occupied_by(4, player)
                && self.cell_occupied_by(6, player))
    }

    /// Every cell of the board is occupied.
    fn is_board_full(&self) -> (r: bool)
        ensures
            r == board_full(self.board_view()),
    {
        let mut i: usize = 0;
        while i < 9
            invariant
                i <= 9,
                forall|j: int| 0 <= j < i ==> self.board_view()[j] is Some,
            decreases 9 - i,
        {
            if self.board[i].is_none() {
                return false;
            }
            i = i + 1;
        }
        true
    }

    /// The glyph for cell `i`, as a one-character string slice.
    fn cell_str(&self, i: usize) -> (r: &'static str)
        requires
            i < 9,
        ensures
            r@ == seq![cell_char(self.board_view()[i as int])],
    {
        let r: &'static str = match self.board[i] {
            None => "_",
            Some(Player::O) => "O",
            Some(Player::X) => "X",
        };
        proof {
            reveal_strlit("_");
            reveal_strlit("O");
            reveal_strlit("X");
            assert(r@ =~= seq![cell_char(self.board_view()[i as int])]);
        }
        r
    }

    /// The display form of row `y`: a blank separator line, then the three
    /// cell glyphs two spaces apart.
    fn row_string(&self, y: usize) -> (r: String)
        requires
            y < 3,
        ensures
            r@ == render_row(self.board_view(), y as int),
    {
        let mut out = "\n\n".to_owned();
        out.append(self.cell_str(y * 3));
        out.append("  ");
        out.append(self.cell_str(y * 3 + 1));
        out.append("  ");
        out.append(self.cell_str(y * 3 + 2));
        proof {
            reveal_strlit("\n\n");
            reveal_strlit("  ");
            assert(out@ =~= render_row(self.board_view(), y as int));
        }
        out
    }

    /// The human-readable grid: three rows top to bottom, empty cells shown
    /// as `'_'`, rows separated by a blank line, cells two spaces apart.
    pub fn to_string(&self) -> (r: String)
        ensures
            r@ == render_board(self.board_view()),
    {
        let mut out = self.row_string(0);
        out.append(self.row_string(1).as_str());
        out.append(self.row_string(2).as_str());
        proof {
            assert(out@ =~= render_board(self.board_view()));
        }
        out
    }

    /// Advances the turn to the other player; the board is untouched.
    pub fn proceed(&mut self)
        ensures
            final(self).turn_view() == other_player(old(self).turn_view()),
            final(self).board_view() == old(self).board_view(),
    {
        self.turn = match self.turn {
            Player::O => Player::X,
            Player::X => Player::O,
        }
    }
}

/// A board with every cell empty has no winner and is not full: the
/// outcome of a fresh game is undetermined.
pub proof fn lemma_empty_board_undetermined(board: Seq<Option<Player>>)
    requires
        board.len() == 9,
        forall|i: int| 0 <= i < 9 ==> board[i] is None,
    ensures
        result_of(board) == GameResult::Undetermined,
{
    assert(board[0] is None);
    assert(!wins(board, Player::O));
    assert(!wins(board, Player::X));
    assert(!board_full(board));
}

/// Why a coordinate could not be produced from its textual form.
#[derive(Clone, Copy, Debug, PartialEq, Eq, Structural)]
pub enum PointError {
    /// The input was not exactly two characters long.
    BadLen,
    /// A column or row component lay outside its accepted alphabet.
    OutOfRange,
}

/// The column encoded by an input character: `'A'..'C'` map to `0..2`,
/// case-sensitively; anything else is rejected.
pub open spec fn col_of_char(c: char) -> Option<int> {
    if c == 'A' {
        Some(0)
    } else if c == 'B' {
        Some(1)
    } else if c == 'C' {
        Some(2)
    } else {
        None
    }
}

/// The row encoded by an input character: `'1'..'3'` map to `0..2`;
/// anything else is rejected.
pub open spec fn row_of_char(c: char) -> Option<int> {
    if c == '1' {
        Some(0)
    } else if c == '2' {
        Some(1)
    } else if c == '3' {
        Some(2)
    } else {
        None
    }
}

/// The display letter of column `x` in `[0, 2]`.
pub open spec fn col_char(x: int) -> char {
    if x == 0 {
        'A'
    } else if x == 1 {
        'B'
    } else {
        'C'
    }
}

/// The display digit of row `y` in `[0, 2]`: rows show 1-based.
pub open spec fn row_char(y: int) -> char {
    if y == 0 {
        '1'
    } else if y == 1 {
        '2'
    } else {
        '3'
    }
}

/// The two-character display form of the coordinate at column `x`, row `y`.
pub open spec fn render_coords(x: int, y: int) -> Seq<char> {
    seq![col_char(x), row_char(y)]
}

/// A validated board coordinate: column `x` and row `y`, each in `[0, 2]`.
#[derive(Clone, Copy, Debug, PartialEq, Eq, Structural)]
pub struct Point {
    x: usize,
    y: usize,
}

impl Point {
    /// The column, as a mathematical integer.
    pub closed spec fn spec_x(&self) -> int {
        self.x as int
    }

    /// The row, as a mathematical integer.
    pub closed spec fn spec_y(&self) -> int {
        self.y as int
    }

    #[verifier::type_invariant]
    spec fn inv(&self) -> bool {
        self.x <= 2 && self.y <= 2
    }

    /// The validating factory: accepts exactly the columns and rows in `[0, 2]`.
    pub fn new(x: usize, y: usize) -> (r: Result<Point, PointError>)
        ensures
            x <= 2 && y <= 2 ==> r is Ok && r->Ok_0.spec_x() == x && r->Ok_0.spec_y() == y,
            !(x <= 2 && y <= 2) ==> r == Err::<Point, PointError>(PointError::OutOfRange),
    {
        if x <= 2 && y <= 2 {
            Ok(Point { x, y })
        } else {
            Err(PointError::OutOfRange)
        }
    }

    /// Parses a two-character input such as `"A1"`: the first character is
    /// the column letter, the second the row digit. Inputs of any other
    /// length fail with [`PointError::BadLen`]; a character outside its
    /// alphabet fails with [`PointError::OutOfRange`].
    pub fn from_str(s: &str) -> (r: Result<Point, PointError>)
        ensures
            s@.len() != 2 ==> r == Err::<Point, PointError>(PointError::BadLen),
            s@.len() == 2 && (col_of_char(s@[0]) is None || row_of_char(s@[1]) is None) ==> r
                == Err::<Point, PointError>(PointError::OutOfRange),
            s@.len() == 2 && col_of_char(s@[0]) is Some && row_of_char(s@[1]) is Some ==> {
                &&& r is Ok
                &&& r->Ok_0.spec_x() == col_of_char(s@[0])->Some_0
                &&& r->Ok_0.spec_y() == row_of_char(s@[1])->Some_0
            },
    {
        if s.unicode_len() != 2 {
            return Err(PointError::BadLen);
        }
        let col = s.get_char(0);
        let row = s.get_char(1);
        let x: usize = match col {
            'A' => 0,
            'B' => 1,
            'C' => 2,
            _ => {
                return Err(PointError::OutOfRange);
            },
        };
        let y: usize = match row {
            '1' => 0,
            '2' => 1,
            '3' => 2,
            _ => {
                return Err(PointError::OutOfRange);
            },
        };
        Point::new(x, y)
    }

    /// The display form of the coordinate: its column letter followed by
    /// its 1-based row digit, the inverse of [`Point::from_str`].
    pub fn to_string(&self) -> (r: String)
        ensures
            r@ == render_coords(self.spec_x(), self.spec_y()),
    {
        proof {
            use_type_invariant(self);
        }
        let col: &str = if self.x == 0 {
            "A"
        } else if self.x == 1 {
            "B"
        } else {
            "C"
        };
        let row: &str = if self.y == 0 {
            "1"
        } else if self.y == 1 {
            "2"
        } else {
            "3"
        };
        proof {
            reveal_strlit("A");
            reveal_strlit("B");
            reveal_strlit("C");
            reveal_strlit("1");
            reveal_strlit("2");
            reveal_strlit("3");
        }
        let mut out = col.to_owned();
        out.append(row);
        proof {
            assert(out@ =~= render_coords(self.spec_x(), self.spec_y()));
        }
        out
    }
}

/// Rendering the coordinate parsed from a valid two-character input gives
/// back exactly that input: for every `s` whose column letter and row digit
/// are accepted, the parsed column and row render to `s` again.
pub proof fn lemma_parse_render_round_trip(s: Seq<char>)
    requires
        s.len() == 2,
        col_of_char(s[0]) is Some,
        row_of_char(s[1]) is Some,
    ensures
        render_coords(col_of_char(s[0])->Some_0, row_of_char(s[1])->Some_0) == s,
{
    assert(render_coords(col_of_char(s[0])->Some_0, row_of_char(s[1])->Some_0) =~= s);
}

} // verus!
