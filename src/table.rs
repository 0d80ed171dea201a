//! A plain text table whose columns are padded to display widths, counting
//! East Asian wide characters as two columns.
use vstd::prelude::*;
use ucd::Codepoint;

verus! {

/// Why a row could not be added.
#[derive(Debug, Clone, Copy, PartialEq, Eq, Structural)]
pub enum Error {
    /// The row does not have one cell per column.
    Incompatible,
}

/// One cell of a table.
pub enum Cell {
    Left(String),
    Center(String),
    Right(String),
    VarticalBorder,
    HorizontalBorder,
    Empty,
}

/// The East Asian Width property of a character (Unicode Standard Annex #11).
#[derive(Clone, Copy, Debug, PartialEq, Eq, Structural)]
pub enum EastAsianWidth {
    Narrow,
    Wide,
    Neutral,
    Ambiguous,
    FullWidth,
    HalfWidth,
}

/// What `ucd::Codepoint::east_asian_width` gives for a character.
pub uninterp spec fn east_asian_width_of(c: char) -> EastAsianWidth;

/// Relies on ucd::Codepoint::east_asian_width, which looks the character up
/// in the Unicode East Asian Width table; each of its six classes maps to
/// the class of the same name.
#[verifier::external_body]
fn east_asian_width(c: char) -> (r: EastAsianWidth)
    ensures
        r == east_asian_width_of(c),
{
    match c.east_asian_width() {
        ucd::EastAsianWidth::Narrow => EastAsianWidth::Narrow,
        ucd::EastAsianWidth::Wide => EastAsianWidth::Wide,
        ucd::EastAsianWidth::Neutral => EastAsianWidth::Neutral,
        ucd::EastAsianWidth::Ambiguous => EastAsianWidth::Ambiguous,
        ucd::EastAsianWidth::FullWidth => EastAsianWidth::FullWidth,
        ucd::EastAsianWidth::HalfWidth => EastAsianWidth::HalfWidth,
    }
}

/// Wide and full-width characters take two terminal columns, others one.
pub open spec fn char_width(c: char) -> nat {
    match east_asian_width_of(c) {
        EastAsianWidth::Wide | EastAsianWidth::FullWidth => 2,
        _ => 1,
    }
}

/// The number of terminal columns that `s` takes.
pub open spec fn display_width(s: Seq<char>) -> nat
    decreases s.len(),
{
    if s.len() == 0 {
        0
    } else {
        display_width(s.drop_last()) + char_width(s.last())
    }
}

pub open spec fn repeated(c: char, n: nat) -> Seq<char> {
    Seq::new(n, |i: int| c)
}

/// How many columns `s` falls short of `width`.
pub open spec fn shortfall(s: Seq<char>, width: nat) -> nat {
    if display_width(s) < width {
        (width - display_width(s)) as nat
    } else {
        0
    }
}

/// The text of a cell in a column `width` wide: a value padded with spaces
/// on the side away from its alignment (centered values put the odd space
/// on the right), a border right-aligned or repeated, or blanks.
pub open spec fn cell_text(c: Cell, width: nat) -> Seq<char> {
    match c {
        Cell::Left(s) => s@ + repeated(' ', shortfall(s@, width)),
        Cell::Center(s) => repeated(' ', shortfall(s@, width) / 2) + s@ + repeated(
            ' ',
            (shortfall(s@, width) - shortfall(s@, width) / 2) as nat,
        ),
        Cell::Right(s) => repeated(' ', shortfall(s@, width)) + s@,
        Cell::VarticalBorder => repeated(' ', if width > 0 { (width - 1) as nat } else { 0 }) + seq!['|'],
        Cell::HorizontalBorder => repeated('=', width),
        Cell::Empty => repeated(' ', width),
    }
}

/// `s` followed by `n` copies of `c`.
fn push_repeated(s: &mut String, c: &str, n: usize)
    requires
        old(s)@.len() + n <= usize::MAX,
        c@.len() == 1,
    ensures
        final(s)@ == old(s)@ + repeated(c@[0], n as nat),
{
    let mut i: usize = 0;
    while i < n
        invariant
            i <= n,
            c@.len() == 1,
            s@ == old(s)@ + repeated(c@[0], i as nat),
        decreases n - i,
    {
        s.append(c);
        assert(repeated(c@[0], (i + 1) as nat) =~= repeated(c@[0], i as nat) + c@);
        i = i + 1;
    }
}

/// The display width of `s`, at most `usize::MAX`.
fn width_of(s: &str) -> (r: usize)
    ensures
        r == if display_width(s@) <= usize::MAX { display_width(s@) } else { usize::MAX as nat },
{
    let n = s.unicode_len();
    let mut w: usize = 0;
    let mut i: usize = 0;
    while i < n
        invariant
            n == s@.len(),
            i <= n,
            w == if display_width(s@.take(i as int)) <= usize::MAX {
                display_width(s@.take(i as int))
            } else {
                usize::MAX as nat
            },
        decreases n - i,
    {
        assert(s@.take(i + 1).drop_last() =~= s@.take(i as int));
        let c = s.get_char(i);
        let cw: usize = match east_asian_width(c) {
            EastAsianWidth::Wide | EastAsianWidth::FullWidth => 2,
            _ => 1,
        };
        if w > usize::MAX - cw {
            w = usize::MAX;
        } else {
            w = w + cw;
        }
        i = i + 1;
    }
    assert(s@.take(n as int) =~= s@);
    w
}

proof fn lemma_space_literal()
    ensures
        " "@.len() == 1,
        " "@[0] == ' ',
        "="@.len() == 1,
        "="@[0] == '=',
        "|"@ == seq!['|'],
{
    reveal_strlit(" ");
    reveal_strlit("=");
    reveal_strlit("|");
    assert("|"@ =~= seq!['|']);
}

impl Cell {
    pub fn new_left(value: String) -> (r: Cell)
        ensures
            r == Cell::Left(value),
    {
        Cell::Left(value)
    }

    pub fn new_center(value: String) -> (r: Cell)
        ensures
            r == Cell::Center(value),
    {
        Cell::Center(value)
    }

    pub fn new_right(value: String) -> (r: Cell)
        ensures
            r == Cell::Right(value),
    {
        Cell::Right(value)
    }

    /// The cell's text in a column `width` wide.
    pub fn render(&self, width: usize) -> (r: String)
        requires
            width < usize::MAX / 2,
            cell_fits(*self),
        ensures
            r@ == cell_text(*self, width as nat),
    {
        proof {
            lemma_space_literal();
        }
        let mut r = String::new();
        match self {
            Cell::Left(s) => {
                let pad = width - min_usize(width, width_of(s.as_str()));
                r.append(s.as_str());
                push_repeated(&mut r, " ", pad);
            },
            Cell::Center(s) => {
                let pad = width - min_usize(width, width_of(s.as_str()));
                push_repeated(&mut r, " ", pad / 2);
                r.append(s.as_str());
                push_repeated(&mut r, " ", pad - pad / 2);
            },
            Cell::Right(s) => {
                let pad = width - min_usize(width, width_of(s.as_str()));
                push_repeated(&mut r, " ", pad);
                r.append(s.as_str());
            },
            Cell::VarticalBorder => {
                let pad = if width > 0 { width - 1 } else { 0 };
                push_repeated(&mut r, " ", pad);
                r.append("|");
            },
            Cell::HorizontalBorder => {
                push_repeated(&mut r, "=", width);
            },
            Cell::Empty => {
                push_repeated(&mut r, " ", width);
            },
        }
        proof {
            assert(Seq::<char>::empty() + repeated(' ', 0) =~= Seq::<char>::empty());
        }
        r
    }
}

fn min_usize(a: usize, b: usize) -> (r: usize)
    ensures
        r == if a < b { a } else { b },
{
    if a < b {
        a
    } else {
        b
    }
}

/// A table: a title line, then rows of cells, each row one cell per column.
pub struct Table {
    title: String,
    column_count: usize,
    matrix: Vec<Vec<Cell>>,
}

pub struct TableView {
    pub title: Seq<char>,
    pub column_count: nat,
    pub rows: Seq<Seq<Cell>>,
}

impl View for Table {
    type V = TableView;

    closed spec fn view(&self) -> TableView {
        TableView {
            title: self.title@,
            column_count: self.column_count as nat,
            rows: self.matrix@.map_values(|row: Vec<Cell>| row@),
        }
    }
}

/// The width of column `i` of a table of `column_count` columns: 1, 16 and 2
/// for the first three, 2 for the last, 7 for the others.
pub open spec fn column_width(i: nat, column_count: nat) -> nat {
    if i == 0 {
        1
    } else if i == 1 {
        16
    } else if i == 2 {
        2
    } else if i + 1 == column_count {
        2
    } else {
        7
    }
}

/// The cells of a row, each in its column's width, one after another.
pub open spec fn row_text(row: Seq<Cell>, column_count: nat) -> Seq<char>
    decreases row.len(),
{
    if row.len() == 0 {
        Seq::empty()
    } else {
        row_text(row.drop_last(), column_count) + cell_text(
            row.last(),
            column_width((row.len() - 1) as nat, column_count),
        )
    }
}

/// Each row on a line of its own, after a line break.
pub open spec fn rows_text(rows: Seq<Seq<Cell>>, column_count: nat) -> Seq<char>
    decreases rows.len(),
{
    if rows.len() == 0 {
        Seq::empty()
    } else {
        rows_text(rows.drop_last(), column_count) + seq!['\n'] + row_text(rows.last(), column_count)
    }
}

/// The text of a table: its title, then its rows.
pub open spec fn table_text(t: TableView) -> Seq<char> {
    t.title + rows_text(t.rows, t.column_count)
}

/// A cell whose text is short enough to render without overflow.
pub open spec fn cell_fits(c: Cell) -> bool {
    match c {
        Cell::Left(s) | Cell::Center(s) | Cell::Right(s) => s@.len() < usize::MAX / 2,
        _ => true,
    }
}

impl Table {
    /// A table with a title and no rows.
    pub fn empty(title: String, column_count: usize) -> (r: Table)
        ensures
            r@.title == title@,
            r@.column_count == column_count,
            r@.rows.len() == 0,
    {
        let r = Table { title, column_count, matrix: Vec::new() };
        assert(r@.rows =~= Seq::<Seq<Cell>>::empty());
        r
    }

    /// Appends a row, if it has one cell per column.
    pub fn add_row(&mut self, row: Vec<Cell>) -> (r: Result<(), Error>)
        ensures
            r is Ok <==> row@.len() == old(self)@.column_count,
            r is Ok ==> final(self)@ == (TableView { rows: old(self)@.rows.push(row@), ..old(self)@ }),
            r is Err ==> final(self)@ == old(self)@,
    {
        if self.column_count != row.len() {
            Err(Error::Incompatible)
        } else {
            let ghost row_view = row@;
            self.matrix.push(row);
            assert(self@.rows =~= old(self)@.rows.push(row_view));
            Ok(())
        }
    }

    /// Appends a row of horizontal borders.
    pub fn add_horizontal_border(&mut self)
        ensures
            final(self)@ == (TableView {
                rows: old(self)@.rows.push(Seq::new(old(self)@.column_count, |i: int| Cell::HorizontalBorder)),
                ..old(self)@
            }),
    {
        let mut row: Vec<Cell> = Vec::new();
        let mut i: usize = 0;
        while i < self.column_count
            invariant
                i <= self.column_count,
                row@.len() == i,
                forall|k: int| 0 <= k < i ==> row@[k] == Cell::HorizontalBorder,
            decreases self.column_count - i,
        {
            row.push(Cell::HorizontalBorder);
            i = i + 1;
        }
        assert(row@ =~= Seq::new(self@.column_count, |i: int| Cell::HorizontalBorder));
        let r = self.add_row(row);
        assert(r is Ok);
    }

    /// The table as text: the title, then each row on a line of its own.
    pub fn render(&self) -> (r: String)
        requires
            forall|i: int, j: int|
                0 <= i < self@.rows.len() && 0 <= j < self@.rows[i].len() ==> cell_fits(
                    #[trigger] self@.rows[i][j],
                ),
        ensures
            r@ == table_text(self@),
    {
        let ghost v = self@;
        let mut r = self.title.clone();
        let mut i: usize = 0;
        while i < self.matrix.len()
            invariant
                v == self@,
                i <= self.matrix@.len(),
                r@ == v.title + rows_text(v.rows.take(i as int), v.column_count),
                forall|a: int, b: int|
                    0 <= a < v.rows.len() && 0 <= b < v.rows[a].len() ==> cell_fits(
                        #[trigger] v.rows[a][b],
                    ),
            decreases self.matrix@.len() - i,
        {
            proof {
                reveal_strlit("\n");
                assert("\n"@ =~= seq!['\n']);
            }
            assert(v.rows.take(i + 1).drop_last() =~= v.rows.take(i as int));
            assert(v.rows.take(i + 1).last() == v.rows[i as int]);
            let row = &self.matrix[i];
            assert(row@ == v.rows[i as int]);
            r.append("\n");
            let mut j: usize = 0;
            let ghost base = r@;
            while j < row.len()
                invariant
                    v == self@,
                    row@ == v.rows[i as int],
                    j <= row@.len(),
                    row@.len() == v.rows[i as int].len(),
                    i < v.rows.len(),
                    r@ == base + row_text(row@.take(j as int), v.column_count),
                    forall|a: int, b: int|
                        0 <= a < v.rows.len() && 0 <= b < v.rows[a].len() ==> cell_fits(
                            #[trigger] v.rows[a][b],
                        ),
                decreases row@.len() - j,
            {
                assert(row@.take(j + 1).drop_last() =~= row@.take(j as int));
                assert(row@.take(j + 1).last() == row@[j as int]);
                let w: usize = if j == 0 {
                    1
                } else if j == 1 {
                    16
                } else if j == 2 {
                    2
                } else if j + 1 == self.column_count {
                    2
                } else {
                    7
                };
                assert(cell_fits(v.rows[i as int][j as int]));
                let t = row[j].render(w);
                r.append(t.as_str());
                j = j + 1;
            }
            assert(row@.take(row@.len() as int) =~= row@);
            i = i + 1;
        }
        assert(v.rows.take(v.rows.len() as int) =~= v.rows);
        r
    }
}

} // verus!
