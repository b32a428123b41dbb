//! The frame buffer of the PNG sink: one RGBA byte quadruple per pixel, and the
//! name of the file that each frame is written to.
use vstd::prelude::*;

verus! {

/// `s` ends in `.png`, the extension matched without regard to case.
pub open spec fn has_png_extension(s: Seq<char>) -> bool {
    &&& s.len() >= 4
    &&& s[s.len() - 4] == '.'
    &&& (s[s.len() - 3] == 'p' || s[s.len() - 3] == 'P')
    &&& (s[s.len() - 2] == 'n' || s[s.len() - 2] == 'N')
    &&& (s[s.len() - 1] == 'g' || s[s.len() - 1] == 'G')
}

/// The file name without its `.png` extension, if it has one.
pub open spec fn file_stem(s: Seq<char>) -> Seq<char> {
    if has_png_extension(s) {
        s.subrange(0, s.len() - 4)
    } else {
        s
    }
}

/// The decimal digit `d`.
pub open spec fn digit_char(d: nat) -> char {
    if d == 0 { '0' }
    else if d == 1 { '1' }
    else if d == 2 { '2' }
    else if d == 3 { '3' }
    else if d == 4 { '4' }
    else if d == 5 { '5' }
    else if d == 6 { '6' }
    else if d == 7 { '7' }
    else if d == 8 { '8' }
    else { '9' }
}

/// `n` in decimal, without leading zeros.
pub open spec fn decimal(n: nat) -> Seq<char>
    decreases n,
{
    if n < 10 {
        seq![digit_char(n)]
    } else {
        decimal(n / 10).push(digit_char(n % 10))
    }
}

/// `n` in decimal, padded with zeros to at least four digits.
pub open spec fn frame_number(n: nat) -> Seq<char> {
    if n < 10 {
        seq!['0', '0', '0'] + decimal(n)
    } else if n < 100 {
        seq!['0', '0'] + decimal(n)
    } else if n < 1000 {
        seq!['0'] + decimal(n)
    } else {
        decimal(n)
    }
}

/// The file that frame `frame` is written to, for a sink created with `name`.
pub open spec fn frame_file_name(name: Seq<char>, frame: nat) -> Seq<char> {
    file_stem(name) + frame_number(frame) + seq!['.', 'p', 'n', 'g']
}

fn digit_str(d: usize) -> (r: &'static str)
    requires
        d < 10,
    ensures
        r@ == seq![digit_char(d as nat)],
{
    let digits = "0123456789";
    proof {
        reveal_strlit("0123456789");
    }
    let r = digits.substring_char(d, d + 1);
    assert(r@ =~= seq![digit_char(d as nat)]);
    r
}

fn append_decimal(s: &mut String, n: usize)
    ensures
        final(s)@ == old(s)@ + decimal(n as nat),
    decreases n,
{
    if n >= 10 {
        append_decimal(s, n / 10);
    }
    let d = digit_str(n % 10);
    s.append(d);
    assert(final(s)@ =~= old(s)@ + decimal(n as nat));
}

/// A sink that collects each frame in an RGBA buffer, to be written to its own
/// PNG file.
pub struct PngSink {
    width: usize,
    height: usize,
    file_name: String,
    buffer: Vec<u8>,
}

impl PngSink {
    pub closed spec fn spec_width(&self) -> usize {
        self.width
    }

    pub closed spec fn spec_height(&self) -> usize {
        self.height
    }

    pub closed spec fn spec_file_name(&self) -> Seq<char> {
        self.file_name@
    }

    pub closed spec fn spec_buffer(&self) -> Seq<u8> {
        self.buffer@
    }

    /// The buffer holds four bytes for every pixel.
    pub open spec fn wf(&self) -> bool {
        4 * self.spec_width() * self.spec_height() <= self.spec_buffer().len()
    }

    /// A sink writing to files named after `file_name`, not yet set up for a size.
    pub fn new(file_name: String) -> (r: PngSink)
        ensures
            r.wf(),
            r.spec_width() == 0,
            r.spec_height() == 0,
            r.spec_file_name() == file_name@,
            r.spec_buffer() == seq![0u8],
    {
        PngSink { width: 0, height: 0, file_name, buffer: vec![0u8] }
    }

    /// Sets the sink up for frames of `width` by `height` pixels, every byte of
    /// the buffer zero. The frame count is not needed.
    pub fn init(&mut self, width: usize, height: usize, frames: usize)
        requires
            4 * width * height <= usize::MAX,
        ensures
            final(self).wf(),
            final(self).spec_width() == width,
            final(self).spec_height() == height,
            final(self).spec_file_name() == old(self).spec_file_name(),
            final(self).spec_buffer() == Seq::new((4 * width * height) as nat, |i: int| 0u8),
    {
        assert(width * height <= 4 * width * height && width * height * 4 == 4 * width * height)
            by (nonlinear_arith);
        let n: usize = width * height * 4;
        let mut buffer: Vec<u8> = Vec::new();
        let mut k: usize = 0;
        while k < n
            invariant
                k <= n,
                buffer@ == Seq::new(k as nat, |i: int| 0u8),
            decreases n - k,
        {
            buffer.push(0u8);
            k = k + 1;
            assert(buffer@ =~= Seq::new(k as nat, |i: int| 0u8));
        }
        self.width = width;
        self.height = height;
        self.buffer = buffer;
    }

    /// Stores the colour `rgba` of pixel `(x, y)` at its own four bytes of the buffer.
    pub fn set_sample(&mut self, x: usize, y: usize, rgba: [u8; 4])
        requires
            old(self).wf(),
            x < old(self).spec_width(),
            y < old(self).spec_height(),
        ensures
            final(self).wf(),
            final(self).spec_width() == old(self).spec_width(),
            final(self).spec_height() == old(self).spec_height(),
            final(self).spec_file_name() == old(self).spec_file_name(),
            ({
                let o = 4 * (x + y * old(self).spec_width());
                final(self).spec_buffer() == old(self).spec_buffer().update(o, rgba[0]).update(
                    o + 1,
                    rgba[1],
                ).update(o + 2, rgba[2]).update(o + 3, rgba[3])
            }),
    {
        let w = self.width;
        let h = self.height;
        let len = self.buffer.len();
        assert(x + y * w < w * h && 4 * (x + y * w) + 3 < 4 * w * h && w * h <= 4 * w * h) by (nonlinear_arith)
            requires
                x < w,
                y < h,
        ;
        let o: usize = 4 * (x + y * w);
        self.buffer.set(o, rgba[0]);
        self.buffer.set(o + 1, rgba[1]);
        self.buffer.set(o + 2, rgba[2]);
        self.buffer.set(o + 3, rgba[3]);
    }

    pub fn get_width(&self) -> (r: usize)
        ensures
            r == self.spec_width(),
    {
        self.width
    }

    pub fn get_height(&self) -> (r: usize)
        ensures
            r == self.spec_height(),
    {
        self.height
    }

    /// The RGBA bytes of the frame, row by row.
    pub fn get_buffer(&self) -> (r: &Vec<u8>)
        ensures
            r@ == self.spec_buffer(),
    {
        &self.buffer
    }

    /// The name of the file that frame `frame` is written to: the sink's file
    /// name without a `.png` extension, the frame number with at least four
    /// digits, and `.png`.
    pub fn frame_file_name(&self, frame: usize) -> (r: String)
        ensures
            r@ == frame_file_name(self.spec_file_name(), frame as nat),
    {
        let name = self.file_name.as_str();
        let len = name.unicode_len();
        let stem = if len >= 4 && name.get_char(len - 4) == '.' && (name.get_char(len - 3) == 'p'
            || name.get_char(len - 3) == 'P') && (name.get_char(len - 2) == 'n' || name.get_char(
            len - 2,
        ) == 'N') && (name.get_char(len - 1) == 'g' || name.get_char(len - 1) == 'G') {
            name.substring_char(0, len - 4)
        } else {
            name.substring_char(0, len)
        };
        assert(stem@ =~= file_stem(self.spec_file_name()));
        let mut r = String::from_str(stem);
        proof {
            reveal_strlit("000");
            reveal_strlit("00");
            reveal_strlit("0");
            reveal_strlit(".png");
        }
        if frame < 10 {
            r.append("000");
        } else if frame < 100 {
            r.append("00");
        } else if frame < 1000 {
            r.append("0");
        }
        append_decimal(&mut r, frame);
        r.append(".png");
        assert(r@ =~= frame_file_name(self.spec_file_name(), frame as nat));
        r
    }
}

} // verus!
