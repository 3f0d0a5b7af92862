//! A generated QR code symbol: a square of dark and light modules.

use vstd::prelude::*;

use fast_qr::QRCode as FastQrCode;

use crate::text::{decimal, push_decimal};

verus! {

/// The module values a `fast_qr::QRCode` holds, row after row in its
/// fixed-size module array (`true` is a dark module). Row `r`, column `c` of a
/// symbol of side `n` is entry `r * n + c`.
pub uninterp spec fn qr_modules(code: FastQrCode) -> Seq<bool>;

/// The side length (modules per row and per column) a `fast_qr::QRCode`
/// was made with: its `size` field.
pub uninterp spec fn qr_size(code: FastQrCode) -> nat;

/// The side length of a symbol of version `v` (1..=40).
pub open spec fn side_of_version(v: nat) -> nat {
    4 * v + 17
}

/// The side lengths a symbol can have: `4 * v + 17` for a version `v` in 1..=40.
pub open spec fn is_symbol_side(n: nat) -> bool {
    21 <= n <= 177 && n % 4 == 1
}

/// The module at row `row`, column `col` of a symbol of side `side`.
pub open spec fn module_at(modules: Seq<bool>, side: nat, row: int, col: int) -> bool {
    modules[row * side + col]
}

/// The character that draws two vertically stacked modules in a terminal:
/// a dark module is shown as background, a light one as a filled half.
pub open spec fn glyph(upper: bool, lower: bool) -> char {
    if upper && lower {
        ' '
    } else if upper {
        '\u{2584}'
    } else if lower {
        '\u{2580}'
    } else {
        '\u{2588}'
    }
}

/// The glyphs drawing rows `row` and `row + 1` side by side (with
/// `lower_light` the lower row is taken as all light instead).
pub open spec fn glyph_line(modules: Seq<bool>, side: nat, row: int, lower_light: bool) -> Seq<char> {
    Seq::new(
        side,
        |c: int|
            glyph(
                module_at(modules, side, row, c),
                !lower_light && module_at(modules, side, row + 1, c),
            ),
    )
}

/// The lines drawing the first `pairs` pairs of rows, each followed by a newline.
pub open spec fn paired_lines(modules: Seq<bool>, side: nat, pairs: nat) -> Seq<char>
    decreases pairs,
{
    if pairs == 0 {
        Seq::empty()
    } else {
        paired_lines(modules, side, (pairs - 1) as nat) + seq!['\u{2588}'] + glyph_line(
            modules,
            side,
            2 * (pairs - 1),
            false,
        ) + seq!['\u{2588}', '\n']
    }
}

/// The terminal rendering of a symbol: a top margin line, the rows two by
/// two, and the last row over a light margin.
pub open spec fn terminal_text(modules: Seq<bool>, side: nat) -> Seq<char> {
    seq!['\u{2584}'] + Seq::new(side, |c: int| glyph(true, false)) + seq!['\u{2584}', '\n']
        + paired_lines(modules, side, side / 2) + seq!['\u{2588}'] + glyph_line(
        modules,
        side,
        side - 1,
        true,
    ) + seq!['\u{2588}']
}

/// Reads `fast_qr::QRCode::size`, the side length the symbol was made with.
#[verifier::external_body]
fn fq_side(code: &FastQrCode) -> (n: usize)
    ensures
        n == qr_size(*code),
{
    code.size
}

/// Reads one module through `fast_qr::QRCode`'s row indexing and
/// `fast_qr::Module::value`: `code[row]` is the slice of entries
/// `row * size .. (row + 1) * size` of the module array.
#[verifier::external_body]
fn fq_module(code: &FastQrCode, row: usize, col: usize) -> (dark: bool)
    requires
        qr_size(*code) <= 177,
        row < qr_size(*code),
        col < qr_size(*code),
    ensures
        dark == module_at(qr_modules(*code), qr_size(*code), row as int, col as int),
{
    code[row][col].value()
}

/// Calls `fast_qr::QRCode::to_str`, which draws the symbol with block
/// characters: it panics on a side of 0 and indexes 177-wide margin rows,
/// hence the bounds.
#[verifier::external_body]
fn fq_terminal_text(code: &FastQrCode) -> (text: String)
    requires
        1 <= qr_size(*code) <= 177,
    ensures
        text@ == terminal_text(qr_modules(*code), qr_size(*code)),
{
    code.to_str()
}

/// `fast_qr::QRCode`'s derived `Clone` copies every field: the module array
/// and the side among them.
pub assume_specification[ <FastQrCode as Clone>::clone ](code: &FastQrCode) -> (copy: FastQrCode)
    ensures
        qr_size(copy) == qr_size(*code),
        qr_modules(copy) == qr_modules(*code),
;

/// A generated QR code symbol.
#[derive(Debug)]
pub struct QRCode {
    code: FastQrCode,
}

impl Clone for QRCode {
    /// A copy of the symbol: same side, same modules.
    fn clone(&self) -> (copy: QRCode)
        ensures
            copy.side() == self.side(),
            copy.modules() == self.modules(),
    {
        proof {
            use_type_invariant(self);
        }
        QRCode { code: self.code.clone() }
    }
}

impl QRCode {
    #[verifier::type_invariant]
    spec fn inv(&self) -> bool {
        is_symbol_side(qr_size(self.code))
    }

    /// Number of modules per side.
    pub closed spec fn side(&self) -> nat {
        qr_size(self.code)
    }

    /// The module values, row after row (`true` is dark).
    pub closed spec fn modules(&self) -> Seq<bool> {
        qr_modules(self.code)
    }

    /// Whether the module at `row`, `col` is dark.
    pub open spec fn is_dark(&self, row: int, col: int) -> bool {
        module_at(self.modules(), self.side(), row, col)
    }

    pub(crate) fn from_code(code: FastQrCode) -> (qr: QRCode)
        requires
            is_symbol_side(qr_size(code)),
        ensures
            qr.side() == qr_size(code),
            qr.modules() == qr_modules(code),
    {
        QRCode { code }
    }

    /// The `fast_qr` symbol, for rendering with `fast_qr` directly.
    pub fn as_fast_qr(&self) -> (code: &FastQrCode)
        ensures
            qr_size(*code) == self.side(),
            qr_modules(*code) == self.modules(),
            is_symbol_side(qr_size(*code)),
    {
        proof {
            use_type_invariant(self);
        }
        &self.code
    }

    /// Width and height of the module matrix (number of modules per side).
    pub fn size(&self) -> (n: usize)
        ensures
            n == self.side(),
            is_symbol_side(n as nat),
    {
        proof {
            use_type_invariant(self);
        }
        fq_side(&self.code)
    }

    /// The module matrix, `matrix[row][col]`, `true` for a dark module.
    pub fn matrix(&self) -> (m: Vec<Vec<bool>>)
        ensures
            m.len() == self.side(),
            forall|r: int| 0 <= r < m.len() ==> #[trigger] m[r].len() == self.side(),
            forall|r: int, c: int|
                0 <= r < self.side() && 0 <= c < self.side() ==> #[trigger] m[r][c] == self.is_dark(r, c),
    {
        proof {
            use_type_invariant(self);
        }
        let size = fq_side(&self.code);
        let mut m: Vec<Vec<bool>> = Vec::new();
        let mut row: usize = 0;
        while row < size
            invariant
                size == self.side(),
                is_symbol_side(size as nat),
                row <= size,
                m.len() == row,
                forall|r: int| 0 <= r < m.len() ==> #[trigger] m[r].len() == size,
                forall|r: int, c: int|
                    0 <= r < row && 0 <= c < size ==> #[trigger] m[r][c] == self.is_dark(r, c),
            decreases size - row,
        {
            let mut line: Vec<bool> = Vec::new();
            let mut col: usize = 0;
            while col < size
                invariant
                    size == self.side(),
                    is_symbol_side(size as nat),
                    row < size,
                    col <= size,
                    line.len() == col,
                    forall|c: int| 0 <= c < col ==> #[trigger] line[c] == self.is_dark(row as int, c),
                decreases size - col,
            {
                line.push(fq_module(&self.code, row, col));
                col = col + 1;
            }
            m.push(line);
            row = row + 1;
        }
        m
    }

    /// The text form `QRCode(size=<side>)`.
    pub fn repr(&self) -> (r: String)
        ensures
            r@ == "QRCode(size="@ + decimal(self.side()) + ")"@,
    {
        let mut r = String::from_str("QRCode(size=");
        let n = self.size();
        push_decimal(&mut r, n);
        r.append(")");
        r
    }

    /// Block-character rendering of the symbol for terminal display.
    pub fn to_str(&self) -> (text: String)
        ensures
            text@ == terminal_text(self.modules(), self.side()),
    {
        proof {
            use_type_invariant(self);
        }
        fq_terminal_text(&self.code)
    }
}

} // verus!
