use vstd::prelude::*;

use crate::bitmap::{rows_rgba, to_rgba};
use crate::color::{attributes_of_byte, paper_rgba_of, rgba_of, Attributes};
use crate::error::DecodeError;

verus! {

/// The number of bytes a sprite of the given size needs after its
/// attribute byte.
pub open spec fn sprite_data_len(pixel_width: usize, pixel_height: usize) -> int {
    (pixel_width / 8) as int * pixel_height as int
}

/// A coloured sprite: an attribute and `pixel_height` rows of
/// `pixel_width / 8` bytes each.
#[derive(Debug)]
pub struct Sprite {
    pub pixel_width: usize,
    pub pixel_height: usize,
    pub bytes: Vec<u8>,
    pub color: Attributes,
}

impl Sprite {
    /// The pixel bytes fill the sprite's rows exactly.
    pub open spec fn wf(&self) -> bool {
        self.bytes@.len() == sprite_data_len(self.pixel_width, self.pixel_height)
    }

    /// The bytes of pixel row `y`.
    pub open spec fn row_bytes(&self, y: int) -> Seq<u8> {
        let n = (self.pixel_width / 8) as int;
        self.bytes@.subrange(y * n, (y + 1) * n)
    }

    /// A sprite from an attribute byte followed by exactly the pixel bytes
    /// its size needs.
    pub fn try_from_bytes(pixel_width: usize, pixel_height: usize, bytes: &[u8]) -> (r: Result<
        Sprite,
        DecodeError,
    >)
        ensures
            r.is_ok() <==> bytes@.len() == 1 + sprite_data_len(pixel_width, pixel_height),
            r.is_err() ==> r == Err::<Sprite, DecodeError>(DecodeError::InvalidRecordSize),
            r.is_ok() ==> {
                let s = r.unwrap();
                &&& s.wf()
                &&& s.pixel_width == pixel_width
                &&& s.pixel_height == pixel_height
                &&& s.color == attributes_of_byte(bytes@[0])
                &&& s.bytes@ == bytes@.subrange(1, bytes@.len() as int)
            },
    {
        let bytes_per_row = pixel_width / 8;
        let rows = pixel_height;
        let len = bytes.len();
        // The size fits only if the product does not exceed the length.
        if len == 0 || (rows > 0 && bytes_per_row > (len - 1) / rows) {
            proof {
                if len > 0 && rows > 0 {
                    lemma_product_exceeds(bytes_per_row as int, rows as int, (len - 1) as int);
                }
            }
            return Err(DecodeError::InvalidRecordSize);
        }
        proof {
            if rows > 0 {
                lemma_product_fits(bytes_per_row as int, rows as int, (len - 1) as int);
            }
        }
        let expected_bytes = 1 + rows * bytes_per_row;
        if len != expected_bytes {
            return Err(DecodeError::InvalidRecordSize);
        }
        let color = Attributes::from_byte(bytes[0]);
        let mut data: Vec<u8> = Vec::new();
        data.extend_from_slice(&bytes[1..len]);
        Ok(Sprite { pixel_width, pixel_height, bytes: data, color })
    }

    /// The RGBA data of this sprite, one vector per pixel row.
    pub fn to_rgba(&self) -> (r: Vec<Vec<u8>>)
        requires
            self.wf(),
        ensures
            r@.len() == self.pixel_height,
            forall|y: int|
                0 <= y < self.pixel_height ==> (#[trigger] r@[y])@ == rows_rgba(
                    self.row_bytes(y),
                    rgba_of(self.color.ink, self.color.bright),
                    paper_rgba_of(self.color),
                ),
    {
        let ink = self.color.ink_rgba();
        let paper = self.color.paper_rgba();
        let n = self.pixel_width / 8;
        let len = self.bytes.len();
        let mut result: Vec<Vec<u8>> = Vec::new();
        let mut y: usize = 0;
        while y < self.pixel_height
            invariant
                self.wf(),
                n == self.pixel_width / 8,
                len == self.bytes@.len(),
                y <= self.pixel_height,
                ink@ == rgba_of(self.color.ink, self.color.bright),
                paper@ == paper_rgba_of(self.color),
                result@.len() == y,
                forall|k: int|
                    0 <= k < y ==> (#[trigger] result@[k])@ == rows_rgba(
                        self.row_bytes(k),
                        ink@,
                        paper@,
                    ),
            decreases self.pixel_height - y,
        {
            proof {
                lemma_row_in_bounds(n as int, y as int, self.pixel_height as int);
            }
            let start = y * n;
            let mut cols: Vec<u8> = Vec::new();
            let mut x: usize = 0;
            while x < n
                invariant
                    self.wf(),
                    n == self.pixel_width / 8,
                    len == self.bytes@.len(),
                    y < self.pixel_height,
                    start == y * n,
                    start + n <= self.bytes@.len(),
                    x <= n,
                    cols@ == rows_rgba(
                        self.bytes@.subrange(start as int, start + x),
                        ink@,
                        paper@,
                    ),
                decreases n - x,
            {
                to_rgba(&mut cols, &self.bytes[start + x], ink.as_slice(), paper.as_slice());
                proof {
                    let next = self.bytes@.subrange(start as int, start + x + 1);
                    assert(next.drop_last() =~= self.bytes@.subrange(start as int, start + x));
                }
                x = x + 1;
            }
            assert(self.bytes@.subrange(start as int, start + n) == self.row_bytes(y as int)) by {
                assert((y + 1) * n == y * n + n) by (nonlinear_arith);
            }
            result.push(cols);
            y = y + 1;
        }
        result
    }
}

proof fn lemma_product_exceeds(a: int, b: int, m: int)
    requires
        a >= 0,
        b > 0,
        m >= 0,
        a > m / b,
    ensures
        a * b > m,
{
    assert(a * b > m) by (nonlinear_arith)
        requires
            a >= m / b + 1,
            b > 0,
            m >= 0,
    {
        assert(m < (m / b + 1) * b) by (nonlinear_arith)
            requires
                b > 0,
                m >= 0,
        ;
        assert((m / b + 1) * b <= a * b) by (nonlinear_arith)
            requires
                a >= m / b + 1,
                b > 0,
        ;
    }
}

proof fn lemma_product_fits(a: int, b: int, m: int)
    requires
        a >= 0,
        b > 0,
        m >= 0,
        a <= m / b,
    ensures
        a * b <= m,
{
    assert(a * b <= (m / b) * b) by (nonlinear_arith)
        requires
            a <= m / b,
            b > 0,
    ;
    assert((m / b) * b <= m) by (nonlinear_arith)
        requires
            b > 0,
            m >= 0,
    ;
}

proof fn lemma_row_in_bounds(n: int, y: int, h: int)
    requires
        n >= 0,
        0 <= y < h,
    ensures
        0 <= y * n,
        y * n + n <= n * h,
        (y + 1) * n == y * n + n,
{
    assert(0 <= y * n) by (nonlinear_arith)
        requires
            n >= 0,
            y >= 0,
    ;
    assert(y * n + n <= n * h) by (nonlinear_arith)
        requires
            n >= 0,
            y < h,
    ;
    assert((y + 1) * n == y * n + n) by (nonlinear_arith);
}

} // verus!
