use vstd::prelude::*;

use crate::color::{attributes_of_byte, paper_rgba_of, rgba_of, Attributes};

verus! {

/// Whether pixel `i` (0 is the leftmost) of a row byte is set; rows are
/// stored most significant bit first.
pub open spec fn pixel_on(b: u8, i: int) -> bool {
    (b >> ((7 - i) as u8)) & 1u8 == 1u8
}

/// The RGBA data of the first `n` pixels of a row byte.
pub open spec fn pixels_rgba(b: u8, ink: Seq<u8>, paper: Seq<u8>, n: nat) -> Seq<u8>
    decreases n,
{
    if n == 0 {
        Seq::empty()
    } else {
        pixels_rgba(b, ink, paper, (n - 1) as nat) + if pixel_on(b, n - 1) {
            ink
        } else {
            paper
        }
    }
}

/// The RGBA data of the eight pixels of a row byte.
pub open spec fn byte_rgba(b: u8, ink: Seq<u8>, paper: Seq<u8>) -> Seq<u8> {
    pixels_rgba(b, ink, paper, 8)
}

/// The RGBA data of a sequence of row bytes, one after the other.
pub open spec fn rows_rgba(rows: Seq<u8>, ink: Seq<u8>, paper: Seq<u8>) -> Seq<u8>
    decreases rows.len(),
{
    if rows.len() == 0 {
        Seq::empty()
    } else {
        rows_rgba(rows.drop_last(), ink, paper) + byte_rgba(rows.last(), ink, paper)
    }
}

/// The RGBA data of row bytes drawn with an attribute's ink and paper.
pub open spec fn render_spec(rows: Seq<u8>, color: Attributes) -> Seq<u8> {
    rows_rgba(rows, rgba_of(color.ink, color.bright), paper_rgba_of(color))
}

/// Row bytes moved down by `k` bytes: `k` zero bytes in front, the last `k`
/// bytes dropped.
pub open spec fn shift_rows(rows: Seq<u8>, k: nat) -> Seq<u8> {
    Seq::new(k, |i: int| 0u8) + rows.subrange(0, rows.len() - k)
}

/// Row bytes moved down `n` times by `k` bytes.
pub open spec fn shift_rows_n(rows: Seq<u8>, k: nat, n: nat) -> Seq<u8>
    decreases n,
{
    if n == 0 {
        rows
    } else {
        shift_rows(shift_rows_n(rows, k, (n - 1) as nat), k)
    }
}

/// A byte rotated right by `k` bits, `k` below 8.
pub open spec fn rotate_right_spec(b: u8, k: u8) -> u8 {
    if k == 0 {
        b
    } else {
        ((b >> k) | (b << ((8 - k) as u8))) as u8
    }
}

/// The right rotation that `pixels` asks for: right for a positive count,
/// left for a negative one, modulo 8.
pub open spec fn rotation_of(pixels: i8) -> u8 {
    ((pixels as int) % 8) as u8
}

/// A grid of one-bit pixels, `width` by `height`, stored as row bytes most
/// significant bit first, with an optional colour attribute.
#[derive(Debug, Clone)]
pub struct Bitmap {
    pub data: Vec<u8>,
    pub width: usize,
    pub height: usize,
    pub color: Option<Attributes>,
}

impl View for Bitmap {
    type V = Seq<u8>;

    /// The row bytes.
    open spec fn view(&self) -> Seq<u8> {
        self.data@
    }
}

impl Bitmap {
    /// A bitmap of the given size over a copy of `data`, with no colour.
    pub fn create(width: usize, height: usize, data: &[u8]) -> (r: Bitmap)
        ensures
            r@ == data@,
            r.width == width,
            r.height == height,
            r.color.is_none(),
    {
        let mut copy: Vec<u8> = Vec::new();
        copy.extend_from_slice(data);
        Bitmap { width, height, color: None, data: copy }
    }

    /// A bitmap whose colour is the attribute in the first byte of `data`
    /// and whose rows are the bytes after it.
    pub fn create_with_attributes(width: usize, height: usize, data: &[u8]) -> (r: Bitmap)
        requires
            data@.len() >= 1,
        ensures
            r@ == data@.subrange(1, data@.len() as int),
            r.width == width,
            r.height == height,
            r.color == Some(attributes_of_byte(data@[0])),
    {
        let color = Attributes::from_byte(data[0]);
        let mut copy: Vec<u8> = Vec::new();
        copy.extend_from_slice(&data[1..data.len()]);
        Bitmap { width, height, color: Some(color), data: copy }
    }

    /// The RGBA image of this bitmap drawn with `color`: set pixels in the
    /// ink colour, clear ones in the paper colour.
    pub fn render_with_color(&self, color: &Attributes) -> (r: Vec<u8>)
        ensures
            r@ == render_spec(self@, *color),
    {
        let ink_color = color.ink_rgba();
        let paper_color = color.paper_rgba();
        let mut rgba: Vec<u8> = Vec::new();
        let mut i: usize = 0;
        while i < self.data.len()
            invariant
                i <= self.data@.len(),
                ink_color@ == rgba_of(color.ink, color.bright),
                paper_color@ == paper_rgba_of(*color),
                rgba@ == rows_rgba(self.data@.subrange(0, i as int), ink_color@, paper_color@),
            decreases self.data@.len() - i,
        {
            to_rgba(&mut rgba, &self.data[i], ink_color.as_slice(), paper_color.as_slice());
            proof {
                let next = self.data@.subrange(0, i + 1);
                assert(next.drop_last() =~= self.data@.subrange(0, i as int));
            }
            i = i + 1;
        }
        assert(self.data@.subrange(0, i as int) =~= self.data@);
        rgba
    }

    /// The RGBA image of this bitmap drawn with its own colour.
    pub fn render(&self) -> (r: Vec<u8>)
        requires
            self.color.is_some(),
        ensures
            r@ == render_spec(self@, self.color.unwrap()),
    {
        let color = self.color.unwrap();
        self.render_with_color(&color)
    }

    /// A copy of this bitmap moved down by one pixel row: `width / 8` zero
    /// bytes in front, as many bytes dropped at the end.
    pub fn shift_down(&self) -> (r: Bitmap)
        requires
            self@.len() >= self.width / 8,
        ensures
            r@ == shift_rows(self@, (self.width / 8) as nat),
            r.width == self.width,
            r.height == self.height,
            r.color == self.color,
    {
        let pushed_bytes = self.width / 8;
        let mut new_data: Vec<u8> = Vec::new();
        new_data.resize(pushed_bytes, 0);
        let kept = self.data.len() - pushed_bytes;
        new_data.extend_from_slice(&self.data.as_slice()[0..kept]);
        assert(new_data@ =~= shift_rows(self@, (self.width / 8) as nat));
        Bitmap { data: new_data, width: self.width, height: self.height, color: self.color }
    }

    /// Rotates row `row` by `pixels` bits: right for a positive count, left
    /// for a negative one.
    pub fn rotate_row(&mut self, row: u8, pixels: i8)
        requires
            old(self).width == 8,
            (row as int) < old(self)@.len(),
        ensures
            final(self)@ == old(self)@.update(
                row as int,
                rotate_right_spec(old(self)@[row as int], rotation_of(pixels)),
            ),
            final(self).width == old(self).width,
            final(self).height == old(self).height,
            final(self).color == old(self).color,
    {
        let byte = self.data[row as usize];
        let k: u8 = if pixels >= 0 {
            (pixels as u8) % 8
        } else {
            let m: u8 = ((-(pixels as i16)) as u16 % 8) as u8;
            (8 - m) % 8
        };
        assert(k == rotation_of(pixels));
        let new_byte = rotate_right(byte, k);
        self.data.set(row as usize, new_byte);
    }
}

/// A byte rotated right by `k` bits.
pub fn rotate_right(b: u8, k: u8) -> (r: u8)
    requires
        k < 8,
    ensures
        r == rotate_right_spec(b, k),
{
    if k == 0 {
        b
    } else {
        (b >> k) | (b << (8 - k))
    }
}

/// Appends to `rgba` the RGBA data of the eight pixels of row byte `b`:
/// `ink_color` for a set pixel, `paper_color` for a clear one.
pub fn to_rgba(rgba: &mut Vec<u8>, b: &u8, ink_color: &[u8], paper_color: &[u8])
    ensures
        final(rgba)@ == old(rgba)@ + byte_rgba(*b, ink_color@, paper_color@),
{
    let mut mask: u8 = 0b10000000;
    let mut i: u8 = 0;
    assert(0x80u8 >> 0u8 == 0x80u8) by (bit_vector);
    while i < 8
        invariant
            i <= 8,
            mask == 0x80u8 >> i,
            rgba@ == old(rgba)@ + pixels_rgba(*b, ink_color@, paper_color@, i as nat),
        decreases 8 - i,
    {
        let v = *b;
        assert(i < 8 ==> ((v & (0x80u8 >> i)) != 0) == (((v >> ((7 - i) as u8)) & 1u8) == 1u8))
            by (bit_vector);
        assert(i < 8 ==> (0x80u8 >> i) >> 1u8 == 0x80u8 >> ((i + 1) as u8)) by (bit_vector);
        let on = v & mask != 0;
        if on {
            rgba.extend_from_slice(ink_color);
        } else {
            rgba.extend_from_slice(paper_color);
        }
        mask = mask >> 1;
        proof {
            assert(rgba@ =~= old(rgba)@ + pixels_rgba(*b, ink_color@, paper_color@, (i + 1) as nat));
        }
        i = i + 1;
    }
}

/// The eight frames of a crumbling tile: the base bitmap moved down one
/// pixel row, then two, and so on up to eight.
pub fn crumble_frames(base: &Bitmap) -> (r: Vec<Bitmap>)
    requires
        base@.len() >= (base.width / 8) as nat,
    ensures
        r@.len() == 8,
        forall|i: int|
            0 <= i < 8 ==> {
                &&& (#[trigger] r@[i])@ == shift_rows_n(base@, (base.width / 8) as nat, (i + 1) as nat)
                &&& r@[i].width == base.width
                &&& r@[i].height == base.height
                &&& r@[i].color == base.color
            },
{
    let mut frames: Vec<Bitmap> = Vec::new();
    let mut current = base.shift_down();
    let mut n: usize = 0;
    assert(shift_rows_n(base@, (base.width / 8) as nat, 0) == base@);
    assert(shift_rows_n(base@, (base.width / 8) as nat, 1) == shift_rows(base@, (base.width / 8) as nat));
    while n < 8
        invariant
            n <= 8,
            frames@.len() == n,
            current@ == shift_rows_n(base@, (base.width / 8) as nat, (n + 1) as nat),
            current@.len() == base@.len(),
            current.width == base.width,
            current.height == base.height,
            current.color == base.color,
            forall|i: int|
                0 <= i < n ==> {
                    &&& (#[trigger] frames@[i])@ == shift_rows_n(
                        base@,
                        (base.width / 8) as nat,
                        (i + 1) as nat,
                    )
                    &&& frames@[i].width == base.width
                    &&& frames@[i].height == base.height
                    &&& frames@[i].color == base.color
                },
        decreases 8 - n,
    {
        let next = current.shift_down();
        assert(next@ == shift_rows_n(base@, (base.width / 8) as nat, (n + 2) as nat));
        frames.push(current);
        current = next;
        n = n + 1;
    }
    frames
}

} // verus!
