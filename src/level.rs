use vstd::prelude::*;
use vstd::string::StringSliceAdditionalSpecFns;

verus! {

/// The kind of a brick of a level.
#[derive(Clone, Copy, Debug, PartialEq, Eq, Structural)]
pub enum BrickKind {
    Normal,
    /// Releases a new ball when destroyed.
    Spawner,
    /// Releases a falling upgrade when destroyed.
    Upgrade,
}

/// A brick as a level describes it, and as it stands in the playfield.
#[derive(Clone, Copy, Debug, PartialEq, Eq, Structural)]
pub struct Brick {
    pub lives: u32,
    pub kind: BrickKind,
}

/// Why a level description could not be read.
#[derive(Clone, Copy, Debug, PartialEq, Eq, Structural)]
pub enum LevelError {
    /// Fewer than two tokens: no column and row count.
    MissingHeader,
    /// The column or row count is not a positive decimal integer that fits in 32 bits.
    BadHeader,
    /// Fewer grid tokens than the header announces.
    ShortGrid,
}

/// A parsed level: `cells` holds `cols * rows` optional bricks, row-major,
/// top row first.
#[derive(Clone, Debug)]
pub struct Level {
    pub cols: usize,
    pub rows: usize,
    pub cells: Vec<Option<Brick>>,
}

/// Largest column or row count that a level may announce.
pub const MAX_COUNT: u64 = 0xFFFF_FFFF;

/// Most lives a normal brick can have.
pub const MAX_LIVES: u32 = 5;

pub open spec fn is_space(b: u8) -> bool {
    b == 0x20u8 || b == 0x09u8 || b == 0x0Au8 || b == 0x0Bu8 || b == 0x0Cu8 || b == 0x0Du8
}

pub open spec fn is_digit(b: u8) -> bool {
    0x30u8 <= b && b <= 0x39u8
}

/// First position at or after `i` that does not hold whitespace.
pub open spec fn skip_space(s: Seq<u8>, i: int) -> int
    decreases s.len() - i,
{
    if 0 <= i < s.len() && is_space(s[i]) {
        skip_space(s, i + 1)
    } else {
        i
    }
}

/// First position at or after `i` that holds whitespace, or the end.
pub open spec fn token_end(s: Seq<u8>, i: int) -> int
    decreases s.len() - i,
{
    if 0 <= i < s.len() && !is_space(s[i]) {
        token_end(s, i + 1)
    } else {
        i
    }
}

/// The whitespace-separated tokens of `s` from position `i` on.
pub open spec fn tokens_from(s: Seq<u8>, i: int) -> Seq<Seq<u8>>
    decreases s.len() - i,
{
    let a = skip_space(s, i);
    if 0 <= i && a < s.len() {
        let b = token_end(s, a);
        if i < b <= s.len() {
            seq![s.subrange(a, b)] + tokens_from(s, b)
        } else {
            Seq::empty()
        }
    } else {
        Seq::empty()
    }
}

pub open spec fn tokens(s: Seq<u8>) -> Seq<Seq<u8>> {
    tokens_from(s, 0)
}

pub open spec fn all_digits(t: Seq<u8>) -> bool {
    forall|i: int| 0 <= i < t.len() ==> is_digit(#[trigger] t[i])
}

/// The value of a string of decimal digits.
pub open spec fn decimal(t: Seq<u8>) -> nat
    decreases t.len(),
{
    if t.len() == 0 {
        0
    } else {
        decimal(t.drop_last()) * 10 + (t.last() - 0x30u8) as nat
    }
}

/// A token read as a decimal number: digits only, at least one.
pub open spec fn is_number(t: Seq<u8>) -> bool {
    t.len() > 0 && all_digits(t)
}

/// The count a header token announces, if it is a valid one.
pub open spec fn count_of(t: Seq<u8>) -> Option<nat> {
    if is_number(t) && 1 <= decimal(t) <= MAX_COUNT {
        Some(decimal(t))
    } else {
        None
    }
}

/// What a grid token puts in its cell.
pub open spec fn cell_of(t: Seq<u8>) -> Option<Brick> {
    if is_number(t) && 1 <= decimal(t) <= MAX_LIVES {
        Some(Brick { lives: decimal(t) as u32, kind: BrickKind::Normal })
    } else if t == seq![0x53u8] {
        Some(Brick { lives: 1, kind: BrickKind::Spawner })
    } else if t == seq![0x55u8] {
        Some(Brick { lives: 1, kind: BrickKind::Upgrade })
    } else {
        None
    }
}

/// The outcome of reading a level description: columns, rows and cells.
pub open spec fn level_of(s: Seq<u8>) -> Result<(nat, nat, Seq<Option<Brick>>), LevelError> {
    let t = tokens(s);
    if t.len() < 2 {
        Err(LevelError::MissingHeader)
    } else if count_of(t[0]).is_none() || count_of(t[1]).is_none() {
        Err(LevelError::BadHeader)
    } else {
        let cols = count_of(t[0]).unwrap();
        let rows = count_of(t[1]).unwrap();
        if t.len() - 2 < cols * rows {
            Err(LevelError::ShortGrid)
        } else {
            Ok((cols, rows, Seq::new(cols * rows, |i: int| cell_of(t[i + 2]))))
        }
    }
}

impl Level {
    /// `cells` holds one entry per grid position.
    pub open spec fn wf(&self) -> bool {
        self.cells@.len() == self.cols * self.rows
    }

    /// The brick at column `x` of row `y` (row 0 is the top row), if any.
    pub fn cell(&self, x: usize, y: usize) -> (r: Option<Brick>)
        requires
            self.wf(),
            x < self.cols,
            y < self.rows,
        ensures
            r == self.cells@[y * self.cols + x],
    {
        let n = self.cells.len();
        proof {
            assert(y * self.cols + x < self.cols * self.rows) by (nonlinear_arith)
                requires
                    x < self.cols,
                    y < self.rows,
            ;
        }
        self.cells[y * self.cols + x]
    }
}

/// A parse result seen through its mathematical contents.
pub open spec fn level_view(r: Result<Level, LevelError>) -> Result<
    (nat, nat, Seq<Option<Brick>>),
    LevelError,
> {
    match r {
        Ok(l) => Ok((l.cols as nat, l.rows as nat, l.cells@)),
        Err(e) => Err(e),
    }
}

proof fn lemma_decimal_prefix_le(t: Seq<u8>, k: int)
    requires
        0 <= k <= t.len(),
    ensures
        decimal(t.subrange(0, k)) <= decimal(t),
    decreases t.len(),
{
    if k < t.len() {
        lemma_decimal_prefix_le(t.drop_last(), k);
        assert(t.drop_last().subrange(0, k) =~= t.subrange(0, k));
    } else {
        assert(t.subrange(0, k) =~= t);
    }
}

/// The position and end of the next token at or after `pos`.
fn next_token(s: &[u8], pos: usize) -> (r: Option<(usize, usize)>)
    requires
        pos <= s@.len(),
    ensures
        match r {
            None => skip_space(s@, pos as int) >= s@.len() && tokens_from(s@, pos as int)
                =~= Seq::<Seq<u8>>::empty(),
            Some((a, b)) => {
                &&& pos <= a < b <= s@.len()
                &&& a == skip_space(s@, pos as int)
                &&& b == token_end(s@, a as int)
                &&& tokens_from(s@, pos as int) == seq![s@.subrange(a as int, b as int)]
                    + tokens_from(s@, b as int)
            },
        },
{
    let mut a: usize = pos;
    while a < s.len() && (s[a] == 0x20u8 || s[a] == 0x09u8 || s[a] == 0x0Au8 || s[a] == 0x0Bu8
        || s[a] == 0x0Cu8 || s[a] == 0x0Du8)
        invariant
            pos <= a <= s@.len(),
            skip_space(s@, pos as int) == skip_space(s@, a as int),
        decreases s@.len() - a,
    {
        a = a + 1;
    }
    if a >= s.len() {
        return None;
    }
    let mut b: usize = a;
    while b < s.len() && !(s[b] == 0x20u8 || s[b] == 0x09u8 || s[b] == 0x0Au8 || s[b] == 0x0Bu8
        || s[b] == 0x0Cu8 || s[b] == 0x0Du8)
        invariant
            a <= b <= s@.len(),
            b > a || !is_space(s@[a as int]),
            token_end(s@, a as int) == token_end(s@, b as int),
        decreases s@.len() - b,
    {
        b = b + 1;
    }
    Some((a, b))
}

/// Reads the token `s[a..b]` as a decimal number no larger than `cap`.
fn parse_bounded(s: &[u8], a: usize, b: usize, cap: u64) -> (r: Option<u64>)
    requires
        a <= b <= s@.len(),
        cap <= MAX_COUNT,
    ensures
        r == (if is_number(s@.subrange(a as int, b as int)) && decimal(
            s@.subrange(a as int, b as int),
        ) <= cap {
            Some(decimal(s@.subrange(a as int, b as int)) as u64)
        } else {
            None::<u64>
        }),
{
    let ghost t = s@.subrange(a as int, b as int);
    if a == b {
        return None;
    }
    let mut v: u64 = 0;
    let mut i: usize = a;
    while i < b
        invariant
            a <= i <= b <= s@.len(),
            t == s@.subrange(a as int, b as int),
            all_digits(s@.subrange(a as int, i as int)),
            v == decimal(s@.subrange(a as int, i as int)),
            v <= cap,
            cap <= MAX_COUNT,
        decreases b - i,
    {
        let c = s[i];
        if c < 0x30u8 || c > 0x39u8 {
            assert(t[i - a] == c);
            return None;
        }
        let ghost prev = s@.subrange(a as int, i as int);
        let ghost next = s@.subrange(a as int, i + 1);
        assert(next.drop_last() =~= prev);
        v = v * 10 + (c - 0x30u8) as u64;
        i = i + 1;
        assert(all_digits(next)) by {
            assert forall|j: int| 0 <= j < next.len() implies is_digit(#[trigger] next[j]) by {
                if j < prev.len() {
                    assert(next[j] == prev[j]);
                }
            }
        }
        if v > cap {
            proof {
                lemma_decimal_prefix_le(t, i - a);
                assert(t.subrange(0, i - a) =~= next);
            }
            return None;
        }
    }
    assert(s@.subrange(a as int, i as int) =~= t);
    Some(v)
}

/// What the token `s[a..b]` puts in its cell.
fn cell_from_token(s: &[u8], a: usize, b: usize) -> (r: Option<Brick>)
    requires
        a < b <= s@.len(),
    ensures
        r == cell_of(s@.subrange(a as int, b as int)),
{
    let ghost t = s@.subrange(a as int, b as int);
    match parse_bounded(s, a, b, MAX_LIVES as u64) {
        Some(v) if v >= 1 => {
            return Some(Brick { lives: v as u32, kind: BrickKind::Normal });
        },
        _ => {},
    }
    if b - a == 1 && s[a] == 0x53u8 {
        assert(t =~= seq![0x53u8]);
        Some(Brick { lives: 1, kind: BrickKind::Spawner })
    } else if b - a == 1 && s[a] == 0x55u8 {
        assert(t =~= seq![0x55u8]);
        assert(t != seq![0x53u8]);
        Some(Brick { lives: 1, kind: BrickKind::Upgrade })
    } else {
        assert(t != seq![0x53u8] && t != seq![0x55u8]) by {
            if b - a == 1 {
                assert(t[0] == s@[a as int]);
            }
        }
        None
    }
}

/// Reads a level description: a column count and a row count, then one token
/// per cell, row by row from the top. A number from 1 to 5 is a normal brick
/// with that many lives, `S` a ball spawner, `U` an upgrade brick, and any
/// other token an empty cell. Tokens after the grid are ignored.
pub fn parse_level(text: &str) -> (r: Result<Level, LevelError>)
    ensures
        level_view(r) == level_of(text.spec_bytes()),
        r is Ok ==> r->Ok_0.wf(),
{
    let s = text.as_bytes();
    let ghost t = tokens(s@);
    let (a0, b0) = match next_token(s, 0) {
        None => {
            return Err(LevelError::MissingHeader);
        },
        Some(p) => p,
    };
    let (a1, b1) = match next_token(s, b0) {
        None => {
            return Err(LevelError::MissingHeader);
        },
        Some(p) => p,
    };
    assert(t[0] == s@.subrange(a0 as int, b0 as int));
    assert(t[1] == s@.subrange(a1 as int, b1 as int));
    let cols = match parse_bounded(s, a0, b0, MAX_COUNT) {
        Some(v) if v >= 1 => v,
        _ => {
            return Err(LevelError::BadHeader);
        },
    };
    let rows = match parse_bounded(s, a1, b1, MAX_COUNT) {
        Some(v) if v >= 1 => v,
        _ => {
            return Err(LevelError::BadHeader);
        },
    };
    assert(cols * rows <= MAX_COUNT * MAX_COUNT) by (nonlinear_arith)
        requires
            cols <= MAX_COUNT,
            rows <= MAX_COUNT,
    ;
    let total: u64 = cols * rows;
    let mut cells: Vec<Option<Brick>> = Vec::new();
    let mut pos: usize = b1;
    let mut k: u64 = 0;
    assert(tokens_from(s@, pos as int) =~= t.subrange(2, t.len() as int));
    while k < total
        invariant
            pos <= s@.len(),
            k <= total,
            total == cols * rows,
            2 + k <= t.len(),
            t == tokens(s@),
            s@ == text.spec_bytes(),
            count_of(t[0]) == Some(cols as nat),
            count_of(t[1]) == Some(rows as nat),
            tokens_from(s@, pos as int) == t.subrange(2 + k, t.len() as int),
            cells@ =~= Seq::new(k as nat, |i: int| cell_of(t[i + 2])),
        decreases total - k,
    {
        let ghost rest = tokens_from(s@, pos as int);
        match next_token(s, pos) {
            None => {
                assert(rest.len() == 0);
                assert(t.len() == 2 + k);
                return Err(LevelError::ShortGrid);
            },
            Some((a, b)) => {
                assert(rest.len() >= 1);
                assert(rest.len() == t.len() - (2 + k));
                assert(rest[0] == t[2 + k]);
                assert(tokens_from(s@, b as int) =~= t.subrange(2 + k + 1, t.len() as int)) by {
                    assert(tokens_from(s@, b as int) =~= rest.subrange(1, rest.len() as int));
                }
                let cell = cell_from_token(s, a, b);
                cells.push(cell);
                pos = b;
                k = k + 1;
            },
        }
    }
    Ok(Level { cols: cols as usize, rows: rows as usize, cells })
}

} // verus!
