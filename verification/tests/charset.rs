use classcii::charset::LuminanceLut;
use classcii::charset::CHARSET_BLOCKS;
use classcii::charset::CHARSET_CLASSIC_GRADIENT;
use classcii::charset::CHARSET_COMPACT;
use classcii::charset::CHARSET_DIGITAL;
use classcii::charset::CHARSET_EXTENDED_SMOOTH;
use classcii::charset::CHARSET_FULL;
use classcii::charset::CHARSET_GLITCH_1;
use classcii::charset::CHARSET_GLITCH_2;
use classcii::charset::CHARSET_MINIMAL;
use classcii::charset::CHARSET_STANDARD;

#[test]
fn luminance_lut_maps_extremes() {
    let lut = LuminanceLut::new(" .:#@");
    assert_eq!(lut.map(0), ' ');
    assert_eq!(lut.map(255), '@');
}

#[test]
fn luminance_lut_monotonic() {
    let lut = LuminanceLut::new(" .:#@");
    let mut prev_idx = 0usize;
    let chars: Vec<char> = " .:#@".chars().collect();
    for i in 0..=255u8 {
        let ch = lut.map(i);
        let idx = chars.iter().position(|&c| c == ch).unwrap();
        assert!(idx >= prev_idx, "LUT non monotone à luminance {i}");
        prev_idx = idx;
    }
}

#[test]
fn luminance_lut_midpoint() {
    let lut = LuminanceLut::new(" .:#@");
    assert_eq!(lut.map(128), ':');
    assert_eq!(lut.map(63), ' ');
    assert_eq!(lut.map(64), '.');
    assert_eq!(lut.map(254), '#');
}

#[test]
fn luminance_lut_short_charset_falls_back() {
    for set in ["", "x"] {
        let lut = LuminanceLut::new(set);
        assert_eq!(lut.map(0), ' ');
        assert_eq!(lut.map(254), ' ');
        assert_eq!(lut.map(255), '@');
    }
}

#[test]
fn luminance_lut_two_characters() {
    let lut = LuminanceLut::new("ab");
    for i in 0..255u8 {
        assert_eq!(lut.map(i), 'a');
    }
    assert_eq!(lut.map(255), 'b');
}

#[test]
fn luminance_lut_every_builtin_set_spans_first_to_last() {
    let sets = [
        CHARSET_COMPACT,
        CHARSET_STANDARD,
        CHARSET_FULL,
        CHARSET_BLOCKS,
        CHARSET_MINIMAL,
        CHARSET_GLITCH_1,
        CHARSET_GLITCH_2,
        CHARSET_DIGITAL,
        CHARSET_CLASSIC_GRADIENT,
        CHARSET_EXTENDED_SMOOTH,
    ];
    for set in sets {
        let chars: Vec<char> = set.chars().collect();
        let lut = LuminanceLut::new(set);
        assert_eq!(lut.map(0), chars[0]);
        assert_eq!(lut.map(255), chars[chars.len() - 1]);
        for i in 0..=255usize {
            assert_eq!(lut.map(i as u8), chars[i * (chars.len() - 1) / 255]);
        }
    }
}
