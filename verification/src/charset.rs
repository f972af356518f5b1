//! Character sets and the luminance lookup table.

use vstd::prelude::*;

verus! {

/// Ten characters: compact, good contrast.
pub const CHARSET_COMPACT: &'static str = " .:-=+*#%@";

/// Seventy characters after Paul Bourke: a good balance.
pub const CHARSET_STANDARD: &'static str =
    " .'`^\",:;Il!i><~+_-?][}{1)(|/tfjrxnuvczXYUJCLQ0OZmwqpdbkhao*#MW&8%B@$";

/// Seventy characters after Paul Bourke, dense to light after the blank.
pub const CHARSET_FULL: &'static str =
    " $@B%8&WM#*oahkbdpqwmZO0QLCJUYXzcvunxrjft/\\|()1{}[]?-_+~<>i!lI;:,\"^`'.";

/// Unicode shade blocks.
pub const CHARSET_BLOCKS: &'static str = " ░▒▓█";

/// Minimal, high contrast.
pub const CHARSET_MINIMAL: &'static str = " .:░▒▓█";

/// Organic, harsh contrast.
pub const CHARSET_GLITCH_1: &'static str = " .°*O0@#&%";

/// Bars, as in a spectrum display.
pub const CHARSET_GLITCH_2: &'static str = " ▂▃▄▅▆▇█";

/// Binary digits.
pub const CHARSET_DIGITAL: &'static str = " 01";

/// A classic smooth gradient.
pub const CHARSET_CLASSIC_GRADIENT: &'static str = " .':;il!i><+?-)(ItfjxnoC00@";

/// An extended smooth gradient for fine luminance steps.
pub const CHARSET_EXTENDED_SMOOTH: &'static str =
    "…^‚:;Il!i><v+_—?1[ł{1)(|/tfjrxnuvczXYUJCLQØ0Zmwqpdbkhао*#МW&8⅝В@$";

/// The characters a table is built from: the given ones when there are at
/// least two, else a blank and an at sign.
pub open spec fn effective_charset(chars: Seq<char>) -> Seq<char> {
    if chars.len() >= 2 {
        chars
    } else {
        seq![' ', '@']
    }
}

/// The position in a set of `len` characters that luminance `lum` maps to.
pub open spec fn rank_spec(lum: int, len: int) -> int {
    (lum * (len - 1)) / 255
}

/// The 256 entries of the table for a character set ordered from lightest
/// to densest.
pub open spec fn table_spec(chars: Seq<char>) -> Seq<char> {
    let set = effective_charset(chars);
    Seq::new(256, |i: int| set[rank_spec(i, set.len() as int)])
}

/// The rank grows with the luminance, starts at the first character and
/// ends at the last one.
pub proof fn lemma_rank_monotonic(a: int, b: int, len: int)
    requires
        0 <= a <= b <= 255,
        len >= 1,
    ensures
        0 <= rank_spec(a, len) <= rank_spec(b, len) <= len - 1,
        rank_spec(0, len) == 0,
        rank_spec(255, len) == len - 1,
{
    assert(0 <= a * (len - 1) <= b * (len - 1) <= 255 * (len - 1)) by (nonlinear_arith)
        requires
            0 <= a <= b <= 255,
            len >= 1,
    ;
}

/// Lookup table from an 8-bit luminance to a character.
#[derive(Clone, Copy, Debug)]
pub struct LuminanceLut {
    lut: [char; 256],
}

impl LuminanceLut {
    /// The 256 characters of the table, by luminance.
    pub closed spec fn table(&self) -> Seq<char> {
        self.lut@
    }

    /// Builds the table for a character set ordered from lightest to
    /// densest. A set of fewer than two characters is replaced by a blank
    /// and an at sign.
    pub fn new(charset: &str) -> (lut: LuminanceLut)
        ensures
            lut.table() == table_spec(charset@),
            lut.table().len() == 256,
            lut.table()[0] == effective_charset(charset@).first(),
            lut.table()[255] == effective_charset(charset@).last(),
    {
        let mut chars: Vec<char> = Vec::new();
        for c in it: charset.chars()
            invariant
                chars@ == it.seq().take(it.index() as int),
        {
            chars.push(c);
        }
        assert(chars@ == charset@);
        if chars.len() < 2 {
            chars = vec![' ', '@'];
        }
        assert(chars@ =~= effective_charset(charset@));
        let len: usize = chars.len();
        let mut lut: [char; 256] = [' ';256];
        let mut i: usize = 0;
        while i < 256
            invariant
                i <= 256,
                len == chars@.len(),
                len >= 2,
                forall|j: int| 0 <= j < i ==> lut@[j] == chars@[rank_spec(j, len as int)],
            decreases 256 - i,
        {
            proof {
                lemma_rank_monotonic(i as int, i as int, len as int);
            }
            assert(i * (len - 1) <= 255 * (len - 1)) by (nonlinear_arith)
                requires
                    0 <= i <= 255,
                    len >= 1,
            ;
            let rank: usize = ((i as u128 * (len - 1) as u128) / 255) as usize;
            lut[i] = chars[rank];
            i += 1;
        }
        proof {
            lemma_rank_monotonic(0, 255, len as int);
            assert(lut@ =~= table_spec(charset@));
        }
        LuminanceLut { lut }
    }

    /// The character for a luminance.
    pub fn map(&self, luminance: u8) -> (c: char)
        ensures
            c == self.table()[luminance as int],
    {
        self.lut[luminance as usize]
    }
}

/// A brighter pixel never maps to a character earlier in the set: the table
/// entry of each luminance is the character at a rank that grows with the
/// luminance, from the first character at 0 to the last at 255.
pub proof fn lemma_table_is_monotonic(chars: Seq<char>, a: int, b: int)
    requires
        0 <= a <= b <= 255,
    ensures
        table_spec(chars)[a] == effective_charset(chars)[rank_spec(
            a,
            effective_charset(chars).len() as int,
        )],
        table_spec(chars)[b] == effective_charset(chars)[rank_spec(
            b,
            effective_charset(chars).len() as int,
        )],
        0 <= rank_spec(a, effective_charset(chars).len() as int) <= rank_spec(
            b,
            effective_charset(chars).len() as int,
        ) < effective_charset(chars).len(),
        table_spec(chars)[0] == effective_charset(chars).first(),
        table_spec(chars)[255] == effective_charset(chars).last(),
{
    let len = effective_charset(chars).len() as int;
    lemma_rank_monotonic(a, b, len);
    lemma_rank_monotonic(0, 255, len);
}

/// In a set of at most 256 characters none is left out: every rank is the
/// rank of some luminance.
pub proof fn lemma_every_rank_is_reached(r: int, len: int)
    requires
        2 <= len <= 256,
        0 <= r < len,
    ensures
        exists|lum: int| 0 <= lum <= 255 && #[trigger] rank_spec(lum, len) == r,
{
    let step = len - 1;
    let lum = (255 * r + step - 1) / step;
    vstd::arithmetic::div_mod::lemma_fundamental_div_mod(255 * r + step - 1, step);
    vstd::arithmetic::div_mod::lemma_mod_bound(255 * r + step - 1, step);
    let rest = (255 * r + step - 1) % step;
    assert(255 * r <= lum * step <= 255 * r + step - 1 && 0 <= lum <= 255) by (nonlinear_arith)
        requires
            255 * r + step - 1 == step * lum + rest,
            0 <= rest < step,
            0 <= r <= step,
            1 <= step <= 255,
    ;
    assert(rank_spec(lum, len) == r);
}

} // verus!
