use classcii::effects::apply_chromatic_aberration;
use classcii::effects::apply_color_pulse;
use classcii::effects::apply_effects;
use classcii::effects::apply_fade_trails;
use classcii::effects::apply_glow;
use classcii::effects::apply_scan_lines;
use classcii::effects::apply_strobe;
use classcii::effects::apply_temporal_stability;
use classcii::effects::apply_wave_distortion;
use classcii::effects::char_density;
use classcii::effects::grid_set_ch;
use classcii::effects::EffectParams;
use classcii::effects::EffectScratch;
use classcii::fixed::Fixed;
use classcii::frame::AsciiCell;
use classcii::frame::AsciiGrid;

fn fx(raw: i64) -> Fixed {
    Fixed::from_micros(raw)
}

fn cell(ch: char, fg: (u8, u8, u8)) -> AsciiCell {
    AsciiCell { ch, fg, bg: (1, 2, 3) }
}

/// A grid whose cells all differ: glyphs from 'a' on, colours by position.
fn varied(w: u16, h: u16) -> AsciiGrid {
    let mut g = AsciiGrid::new(w, h);
    for y in 0..h {
        for x in 0..w {
            let n = (y * w + x) as u8;
            g.set(
                x,
                y,
                AsciiCell {
                    ch: (b'a' + n % 26) as char,
                    fg: (n.wrapping_mul(7), n.wrapping_mul(13).wrapping_add(5), 255 - n),
                    bg: (n, n / 2, n / 3),
                },
            );
        }
    }
    g
}

fn row_of(g: &AsciiGrid, y: u16) -> Vec<AsciiCell> {
    (0..g.width).map(|x| *g.get(x, y)).collect()
}

fn glyphs(g: &AsciiGrid, y: u16) -> String {
    row_of(g, y).iter().map(|c| c.ch).collect()
}

#[test]
fn strobe_adds_a_saturating_boost() {
    let mut g = AsciiGrid::new(2, 1);
    g.set(0, 0, cell('a', (10, 200, 255)));
    g.set(1, 0, cell(' ', (0, 191, 192)));
    // 1.0 * 0.5 * 128 = 64
    apply_strobe(&mut g, fx(1_000_000), fx(500_000));
    assert_eq!(*g.get(0, 0), cell('a', (74, 255, 255)));
    assert_eq!(*g.get(1, 0), cell(' ', (64, 255, 255)));
}

#[test]
fn strobe_boost_is_capped() {
    let mut g = AsciiGrid::new(1, 1);
    g.set(0, 0, cell('a', (0, 1, 2)));
    apply_strobe(&mut g, fx(1_000_000), fx(2_000_000));
    assert_eq!(g.get(0, 0).fg, (255, 255, 255));
    let mut g = AsciiGrid::new(1, 1);
    g.set(0, 0, cell('a', (0, 1, 2)));
    apply_strobe(&mut g, fx(i64::MAX), fx(i64::MAX));
    assert_eq!(g.get(0, 0).fg, (255, 255, 255));
    // 1.0 * 1.99 * 128 = 254.72
    let mut g = AsciiGrid::new(1, 1);
    apply_strobe(&mut g, fx(1_000_000), fx(1_990_000));
    assert_eq!(g.get(0, 0).fg, (254, 254, 254));
}

#[test]
fn strobe_rests_below_its_thresholds() {
    for (envelope, intensity) in
        [(0, 1_000_000), (999, 2_000_000), (1_000_000, 999), (-1_000_000, -1_000_000), (1_000, 1_000)]
    {
        let mut g = varied(4, 3);
        apply_strobe(&mut g, fx(envelope), fx(intensity));
        assert_eq!(g.cells, varied(4, 3).cells);
    }
}

#[test]
fn fade_trails_leave_a_ghost_and_an_echo() {
    let mut cur = AsciiGrid::new(3, 1);
    cur.set(0, 0, AsciiCell { ch: ' ', fg: (9, 9, 9), bg: (4, 5, 6) });
    cur.set(1, 0, AsciiCell { ch: 'a', fg: (100, 100, 100), bg: (4, 5, 6) });
    cur.set(2, 0, AsciiCell { ch: ' ', fg: (9, 9, 9), bg: (4, 5, 6) });
    let mut prev = AsciiGrid::new(3, 1);
    prev.set(0, 0, cell('x', (100, 51, 200)));
    prev.set(1, 0, cell('y', (200, 0, 51)));
    prev.set(2, 0, cell(' ', (200, 200, 200)));
    apply_fade_trails(&mut cur, &prev, fx(500_000));
    assert_eq!(*cur.get(0, 0), AsciiCell { ch: 'x', fg: (50, 25, 100), bg: (4, 5, 6) });
    assert_eq!(*cur.get(1, 0), AsciiCell { ch: 'a', fg: (150, 50, 75), bg: (4, 5, 6) });
    assert_eq!(*cur.get(2, 0), AsciiCell { ch: ' ', fg: (9, 9, 9), bg: (4, 5, 6) });
}

#[test]
fn fade_decay_is_capped() {
    let mut cur = AsciiGrid::new(2, 1);
    cur.set(1, 0, cell('a', (0, 100, 255)));
    let mut prev = AsciiGrid::new(2, 1);
    prev.set(0, 0, cell('x', (200, 100, 1)));
    prev.set(1, 0, cell('y', (200, 100, 0)));
    apply_fade_trails(&mut cur, &prev, fx(7_000_000));
    // 0.95 of the previous colour
    assert_eq!(cur.get(0, 0).fg, (190, 95, 0));
    // 0.05 * current + 0.95 * previous
    assert_eq!(cur.get(1, 0).fg, (190, 100, 12));
}

#[test]
fn fade_trails_rest_on_small_decay_or_other_size() {
    let prev = varied(4, 3);
    for decay in [0, 9_999, -1_000_000] {
        let mut g = AsciiGrid::new(4, 3);
        apply_fade_trails(&mut g, &prev, fx(decay));
        assert_eq!(g.cells, AsciiGrid::new(4, 3).cells);
    }
    for (w, h) in [(3, 4), (4, 2), (5, 3), (0, 0), (12, 1)] {
        let mut g = AsciiGrid::new(w, h);
        apply_fade_trails(&mut g, &prev, fx(500_000));
        assert_eq!(g.cells, AsciiGrid::new(w, h).cells);
    }
}

#[test]
fn glow_brightens_next_to_a_bright_cell() {
    let mut g = AsciiGrid::new(3, 3);
    for y in 0..3 {
        for x in 0..3 {
            g.set(x, y, cell('a', (10, 20, 30)));
        }
    }
    g.set(1, 0, cell('a', (0, 141, 0)));
    let mut buf = vec![9u8; 2];
    apply_glow(&mut g, fx(1_000_000), &mut buf);
    // 1.0 * 40
    assert_eq!(g.get(1, 1).fg, (50, 60, 70));
    // border cells are untouched, bright neighbours or not
    for (x, y) in [(0, 0), (2, 0), (0, 1), (2, 1), (0, 2), (1, 2), (2, 2)] {
        assert_eq!(g.get(x, y).fg, (10, 20, 30));
    }
    assert_eq!(g.get(1, 0).fg, (0, 141, 0));
    assert_eq!(buf, vec![30, 141, 30, 30, 30, 30, 30, 30, 30]);
}

#[test]
fn glow_needs_a_neighbour_above_the_threshold() {
    for (x, y) in [(0, 0), (2, 0), (0, 2), (2, 2)] {
        // diagonal neighbours do not count
        let mut g = AsciiGrid::new(3, 3);
        g.set(x, y, cell('a', (255, 255, 255)));
        apply_glow(&mut g, fx(2_000_000), &mut Vec::new());
        assert_eq!(g.get(1, 1).fg, (0, 0, 0));
    }
    for (x, y) in [(1, 0), (0, 1), (2, 1), (1, 2)] {
        let mut g = AsciiGrid::new(3, 3);
        g.set(x, y, cell('a', (140, 0, 0)));
        apply_glow(&mut g, fx(2_000_000), &mut Vec::new());
        assert_eq!(g.get(1, 1).fg, (0, 0, 0));
        g.set(x, y, cell('a', (0, 0, 141)));
        apply_glow(&mut g, fx(2_000_000), &mut Vec::new());
        assert_eq!(g.get(1, 1).fg, (80, 80, 80));
    }
}

#[test]
fn glow_reads_the_grid_as_it_was() {
    // a cell brightened past the threshold must not light its neighbours
    let mut g = AsciiGrid::new(5, 3);
    g.set(0, 1, cell('a', (200, 0, 0)));
    g.set(1, 1, cell('a', (130, 0, 0)));
    g.set(2, 1, cell('a', (1, 0, 0)));
    apply_glow(&mut g, fx(1_000_000), &mut Vec::new());
    assert_eq!(g.get(1, 1).fg, (170, 40, 40));
    assert_eq!(g.get(2, 1).fg, (1, 0, 0));
}

#[test]
fn glow_rests_below_its_threshold_and_on_small_grids() {
    let mut g = varied(5, 5);
    let mut buf = vec![1u8, 2, 3];
    apply_glow(&mut g, fx(9_999), &mut buf);
    assert_eq!(g.cells, varied(5, 5).cells);
    assert_eq!(buf, vec![1, 2, 3]);
    for (w, h) in [(0, 0), (1, 1), (2, 7), (7, 2), (1, 9)] {
        let mut g = varied(w, h);
        apply_glow(&mut g, fx(2_000_000), &mut buf);
        assert_eq!(g.cells, varied(w, h).cells);
        assert_eq!(buf.len(), (w * h) as usize);
    }
}

#[test]
fn chromatic_aberration_shifts_red_left_and_blue_right() {
    let mut g = AsciiGrid::new(3, 2);
    g.set(0, 0, cell('a', (10, 20, 30)));
    g.set(1, 0, cell('b', (40, 50, 60)));
    g.set(2, 0, cell('c', (70, 80, 90)));
    g.set(0, 1, cell('d', (1, 2, 3)));
    g.set(1, 1, cell('e', (4, 5, 6)));
    g.set(2, 1, cell('f', (7, 8, 9)));
    let mut buf = Vec::new();
    apply_chromatic_aberration(&mut g, fx(1_000_000), &mut buf);
    // red comes from the right neighbour, blue from the left one
    assert_eq!(*g.get(0, 0), cell('a', (40, 20, 30)));
    assert_eq!(*g.get(1, 0), cell('b', (70, 50, 30)));
    assert_eq!(*g.get(2, 0), cell('c', (70, 80, 60)));
    assert_eq!(*g.get(0, 1), cell('d', (4, 2, 3)));
    assert_eq!(*g.get(1, 1), cell('e', (7, 5, 3)));
    assert_eq!(*g.get(2, 1), cell('f', (7, 8, 6)));
    assert_eq!(buf, vec![(10, 20, 30), (40, 50, 60), (70, 80, 90), (1, 2, 3), (4, 5, 6), (7, 8, 9)]);
}

#[test]
fn chromatic_offset_rounds_up_and_stops_at_the_edge() {
    let make = || {
        let mut g = AsciiGrid::new(4, 1);
        for x in 0..4u16 {
            let n = x as u8;
            g.set(x, 0, cell('a', (10 + n, 20 + n, 30 + n)));
        }
        g
    };
    let reds = |g: &AsciiGrid| row_of(g, 0).iter().map(|c| c.fg.0).collect::<Vec<u8>>();
    let blues = |g: &AsciiGrid| row_of(g, 0).iter().map(|c| c.fg.2).collect::<Vec<u8>>();
    let greens = |g: &AsciiGrid| row_of(g, 0).iter().map(|c| c.fg.1).collect::<Vec<u8>>();
    for offset in [10_000, 500_000, 1_000_000] {
        let mut g = make();
        apply_chromatic_aberration(&mut g, fx(offset), &mut Vec::new());
        assert_eq!(reds(&g), vec![11, 12, 13, 13]);
        assert_eq!(blues(&g), vec![30, 30, 31, 32]);
        assert_eq!(greens(&g), vec![20, 21, 22, 23]);
    }
    let mut g = make();
    apply_chromatic_aberration(&mut g, fx(1_000_001), &mut Vec::new());
    assert_eq!(reds(&g), vec![12, 13, 13, 13]);
    assert_eq!(blues(&g), vec![30, 30, 30, 31]);
    for offset in [3_000_000, 5_000_000, i64::MAX] {
        let mut g = make();
        apply_chromatic_aberration(&mut g, fx(offset), &mut Vec::new());
        assert_eq!(reds(&g), vec![13, 13, 13, 13]);
        assert_eq!(blues(&g), vec![30, 30, 30, 30]);
    }
}

#[test]
fn chromatic_aberration_rests_below_its_threshold() {
    let mut g = varied(6, 4);
    let mut buf = vec![(1u8, 2u8, 3u8)];
    apply_chromatic_aberration(&mut g, fx(9_999), &mut buf);
    assert_eq!(g.cells, varied(6, 4).cells);
    assert_eq!(buf, vec![(1, 2, 3)]);
    let mut g = AsciiGrid::new(0, 5);
    apply_chromatic_aberration(&mut g, fx(1_000_000), &mut buf);
    assert!(g.cells.is_empty());
    assert!(buf.is_empty());
}

#[test]
fn wave_with_zero_amplitude_is_a_no_op() {
    let wave: Vec<Fixed> = (0..4).map(|_| fx(1_000_000)).collect();
    for amplitude in [0, 999, -1_000_000] {
        let mut g = varied(6, 4);
        let mut buf = vec![cell('q', (1, 1, 1))];
        apply_wave_distortion(&mut g, fx(amplitude), &wave, &mut buf);
        assert_eq!(g.cells, varied(6, 4).cells);
        assert_eq!(buf, vec![cell('q', (1, 1, 1))]);
    }
}

#[test]
fn wave_rotates_each_row_by_its_shift() {
    let mut g = varied(5, 4);
    // shifts 2, -2, 0 and, beyond the samples, 0
    let wave = vec![fx(250_000), fx(-250_000), fx(100_000)];
    let mut buf = Vec::new();
    apply_wave_distortion(&mut g, fx(1_000_000), &wave, &mut buf);
    assert_eq!(glyphs(&g, 0), "deabc");
    assert_eq!(glyphs(&g, 1), "hijfg");
    assert_eq!(glyphs(&g, 2), "klmno");
    assert_eq!(glyphs(&g, 3), "pqrst");
    // whole cells move, colours with their glyphs
    assert_eq!(*g.get(0, 0), *varied(5, 4).get(3, 0));
    assert_eq!(buf, row_of(&varied(5, 4), 3));
}

#[test]
fn wave_shift_is_capped_and_wraps() {
    let mut g = varied(3, 1);
    // 8 cells on a row of 3: two to the right
    apply_wave_distortion(&mut g, fx(1_000_000), &vec![fx(1_000_000)], &mut Vec::new());
    assert_eq!(glyphs(&g, 0), "bca");
    let mut g = varied(3, 1);
    apply_wave_distortion(&mut g, fx(i64::MAX), &vec![fx(i64::MAX)], &mut Vec::new());
    assert_eq!(glyphs(&g, 0), "bca");
    let mut g = varied(3, 1);
    apply_wave_distortion(&mut g, fx(i64::MAX), &vec![fx(i64::MIN)], &mut Vec::new());
    assert_eq!(glyphs(&g, 0), "cab");
    let mut g = varied(20, 1);
    apply_wave_distortion(&mut g, fx(5_000_000), &vec![fx(-1_000_000)], &mut Vec::new());
    assert_eq!(glyphs(&g, 0), "ijklmnopqrstabcdefgh");
    let mut g = varied(1, 3);
    apply_wave_distortion(&mut g, fx(1_000_000), &vec![fx(1_000_000); 3], &mut Vec::new());
    assert_eq!(g.cells, varied(1, 3).cells);
}

#[test]
fn wave_preserves_the_content_of_every_row() {
    let samples = [1_000_000, 923_880, 707_107, 382_683, 0, -382_683, -707_107, -923_880, -1_000_000];
    for amplitude in [1_000, 130_000, 500_000, 1_000_000] {
        for w in [1u16, 2, 3, 7, 8, 9, 17] {
            let h = samples.len() as u16;
            let mut g = varied(w, h);
            let wave: Vec<Fixed> = samples.iter().map(|&s| fx(s)).collect();
            apply_wave_distortion(&mut g, fx(amplitude), &wave, &mut Vec::new());
            let before = varied(w, h);
            for y in 0..h {
                let got = row_of(&g, y);
                let want = row_of(&before, y);
                // a circular permutation: some rotation of the row
                assert!((0..w as usize).any(|k| {
                    (0..w as usize).all(|x| got[x] == want[(x + k) % w as usize])
                }));
            }
        }
    }
}

#[test]
fn wave_handles_empty_grids() {
    for (w, h) in [(0u16, 0u16), (0, 4), (4, 0)] {
        let mut g = AsciiGrid::new(w, h);
        let mut buf = Vec::new();
        apply_wave_distortion(&mut g, fx(1_000_000), &vec![fx(1_000_000)], &mut buf);
        assert!(g.cells.is_empty());
        assert_eq!(buf.len(), w as usize);
    }
}

#[test]
fn color_pulse_rotates_the_hue() {
    let mut g = AsciiGrid::new(4, 1);
    g.set(0, 0, cell('a', (255, 0, 0)));
    g.set(1, 0, cell('b', (0, 0, 0)));
    g.set(2, 0, cell(' ', (255, 0, 0)));
    g.set(3, 0, cell('c', (100, 100, 100)));
    // a third of a turn: red becomes green
    apply_color_pulse(&mut g, fx(333_333));
    assert_eq!(*g.get(0, 0), cell('a', (0, 255, 0)));
    assert_eq!(*g.get(1, 0), cell('b', (0, 0, 0)));
    assert_eq!(*g.get(2, 0), cell(' ', (255, 0, 0)));
    assert_eq!(*g.get(3, 0), cell('c', (100, 100, 100)));
}

#[test]
fn color_pulse_wraps_and_keeps_the_value() {
    let mut g = AsciiGrid::new(1, 1);
    g.set(0, 0, cell('a', (0, 0, 255)));
    // blue is at two thirds; half a turn on is a sixth: yellow
    apply_color_pulse(&mut g, fx(500_000));
    assert_eq!(g.get(0, 0).fg, (255, 255, 0));
    // a negative shift turns the other way: green back to red
    let mut g = AsciiGrid::new(1, 1);
    g.set(0, 0, cell('a', (0, 200, 0)));
    apply_color_pulse(&mut g, fx(-333_333));
    assert_eq!(g.get(0, 0).fg, (200, 0, 0));
    for shift in [1_000, 123_456, 999_999, 1_000_000, 7_250_000, -1_000, -9_876_543] {
        for fg in [(200u8, 30u8, 90u8), (1, 2, 3), (255, 254, 253), (17, 0, 0), (60, 60, 61)] {
            let mut g = AsciiGrid::new(1, 1);
            g.set(0, 0, cell('a', fg));
            apply_color_pulse(&mut g, fx(shift));
            let out = g.get(0, 0).fg;
            assert_eq!(out.0.max(out.1).max(out.2), fg.0.max(fg.1).max(fg.2));
            assert_eq!(out.0.min(out.1).min(out.2), fg.0.min(fg.1).min(fg.2));
        }
    }
}

#[test]
fn color_pulse_rests_near_zero() {
    for shift in [0, 999, -999] {
        let mut g = varied(5, 3);
        apply_color_pulse(&mut g, fx(shift));
        assert_eq!(g.cells, varied(5, 3).cells);
    }
}

#[test]
fn glyph_densities() {
    let table = [
        (' ', 0),
        ('.', 100_000),
        (',', 100_000),
        ('\'', 100_000),
        ('`', 100_000),
        (':', 100_000),
        ('-', 150_000),
        ('_', 150_000),
        ('~', 150_000),
        (';', 200_000),
        ('!', 200_000),
        ('|', 200_000),
        ('/', 200_000),
        ('\\', 200_000),
        ('+', 300_000),
        ('*', 300_000),
        ('^', 300_000),
        ('"', 300_000),
        ('i', 300_000),
        ('l', 300_000),
        ('t', 300_000),
        ('r', 300_000),
        ('c', 300_000),
        ('=', 350_000),
        ('(', 350_000),
        (')', 350_000),
        ('{', 350_000),
        ('}', 350_000),
        ('[', 350_000),
        (']', 350_000),
        ('v', 400_000),
        ('x', 400_000),
        ('z', 400_000),
        ('n', 400_000),
        ('u', 400_000),
        ('o', 400_000),
        ('a', 400_000),
        ('e', 400_000),
        ('s', 400_000),
        ('A', 550_000),
        ('M', 550_000),
        ('Z', 550_000),
        ('#', 700_000),
        ('@', 700_000),
        ('%', 700_000),
        ('&', 700_000),
        ('$', 700_000),
        ('\u{2588}', 1_000_000),
        ('\u{2596}', 250_000),
        ('\u{259F}', 250_000),
        ('\u{2800}', 0),
        ('\u{2801}', 125_000),
        ('\u{2803}', 250_000),
        ('\u{28AA}', 500_000),
        ('\u{28FF}', 1_000_000),
        ('\u{2584}', 500_000),
        ('b', 500_000),
        ('0', 500_000),
        ('é', 500_000),
    ];
    for (ch, d) in table {
        assert_eq!(char_density(ch), d);
    }
}

#[test]
fn temporal_stability_keeps_similar_glyphs() {
    let mut cur = AsciiGrid::new(5, 1);
    let mut prev = AsciiGrid::new(5, 1);
    let pairs = [('.', ':'), ('#', '.'), ('A', 'x'), (' ', 'x'), ('x', ' ')];
    for (x, (c, p)) in pairs.iter().enumerate() {
        cur.set(x as u16, 0, cell(*c, (x as u8, 50, 60)));
        prev.set(x as u16, 0, AsciiCell { ch: *p, fg: (200, 200, 200), bg: (9, 9, 9) });
    }
    // densities within 1.0 * 0.3 of each other count as the same glyph
    apply_temporal_stability(&mut cur, &prev, fx(1_000_000));
    assert_eq!(glyphs(&cur, 0), ":#x x");
    for x in 0..5u16 {
        assert_eq!(cur.get(x, 0).fg, (x as u8, 50, 60));
        assert_eq!(cur.get(x, 0).bg, (1, 2, 3));
    }
}

#[test]
fn temporal_stability_threshold_is_strict() {
    let run = |threshold: i64| {
        let mut cur = AsciiGrid::new(1, 1);
        let mut prev = AsciiGrid::new(1, 1);
        cur.set(0, 0, cell('A', (1, 1, 1)));
        prev.set(0, 0, cell('x', (2, 2, 2)));
        apply_temporal_stability(&mut cur, &prev, fx(threshold));
        cur.get(0, 0).ch
    };
    // the densities differ by 0.15 = 0.5 * 0.3
    assert_eq!(run(500_000), 'A');
    assert_eq!(run(500_001), 'x');
    assert_eq!(run(i64::MAX), 'x');
}

#[test]
fn temporal_stability_rests_on_small_threshold_or_other_size() {
    let mut prev = AsciiGrid::new(4, 3);
    for y in 0..3 {
        for x in 0..4 {
            prev.set(x, y, cell('b', (0, 0, 0)));
        }
    }
    for threshold in [0, 999, -1_000_000] {
        let mut g = varied(4, 3);
        apply_temporal_stability(&mut g, &prev, fx(threshold));
        assert_eq!(g.cells, varied(4, 3).cells);
    }
    for (w, h) in [(3, 4), (4, 2), (2, 6), (12, 1)] {
        let mut g = varied(w, h);
        apply_temporal_stability(&mut g, &prev, fx(1_000_000));
        assert_eq!(g.cells, varied(w, h).cells);
    }
}

#[test]
fn set_glyph_keeps_the_colours() {
    let mut g = varied(3, 2);
    grid_set_ch(&mut g, 2, 1, '#');
    let before = varied(3, 2);
    for y in 0..2 {
        for x in 0..3 {
            let want = if (x, y) == (2, 1) {
                AsciiCell { ch: '#', ..*before.get(x, y) }
            } else {
                *before.get(x, y)
            };
            assert_eq!(*g.get(x, y), want);
        }
    }
}

#[test]
fn scan_lines_darken_every_nth_row() {
    let mut g = AsciiGrid::new(2, 5);
    for y in 0..5 {
        for x in 0..2 {
            g.set(x, y, cell('a', (100, 51, 255)));
        }
    }
    apply_scan_lines(&mut g, 2, fx(500_000));
    for y in 0..5u16 {
        for x in 0..2 {
            let want = if y % 2 == 0 { (50, 25, 127) } else { (100, 51, 255) };
            assert_eq!(*g.get(x, y), cell('a', want));
        }
    }
    let mut g = varied(3, 7);
    apply_scan_lines(&mut g, 3, fx(0));
    for y in 0..7u16 {
        for x in 0..3 {
            let before = *varied(3, 7).get(x, y);
            let want = if y % 3 == 0 { (0, 0, 0) } else { before.fg };
            assert_eq!(g.get(x, y).fg, want);
            assert_eq!(g.get(x, y).ch, before.ch);
            assert_eq!(g.get(x, y).bg, before.bg);
        }
    }
}

#[test]
fn scan_line_factor_is_clamped() {
    let mut g = varied(4, 4);
    apply_scan_lines(&mut g, 1, fx(1_500_000));
    assert_eq!(g.cells, varied(4, 4).cells);
    let mut g = varied(4, 4);
    apply_scan_lines(&mut g, 1, fx(-1_000_000));
    assert!(g.cells.iter().all(|c| c.fg == (0, 0, 0)));
    let mut g = varied(2, 300);
    apply_scan_lines(&mut g, 255, fx(0));
    for y in 0..300u16 {
        assert_eq!(g.get(0, y).fg == (0, 0, 0), y == 0 || y == 255);
    }
}

#[test]
fn scan_lines_rest_on_a_gap_of_zero() {
    let mut g = varied(5, 5);
    apply_scan_lines(&mut g, 0, fx(0));
    assert_eq!(g.cells, varied(5, 5).cells);
}

#[test]
fn idle_chain_leaves_the_grid_identical() {
    let previous = varied(6, 5);
    let mut idle = EffectParams::idle();
    // the parameters that do not drive anything may be anything
    idle.scan_darken = fx(250_000);
    let wave: Vec<Fixed> = (0..5).map(|_| fx(1_000_000)).collect();
    for (w, h) in [(6u16, 5u16), (5, 6), (0, 0), (1, 1)] {
        let mut g = varied(w, h);
        let mut scratch = EffectScratch::new();
        apply_effects(&mut g, &previous, &idle, &wave, &mut scratch);
        assert_eq!(g.cells, varied(w, h).cells);
        assert_eq!((g.width, g.height), (w, h));
        assert!(scratch.brightness.is_empty());
        assert!(scratch.foreground.is_empty());
        assert!(scratch.row.is_empty());
    }
    let mut below = EffectParams::idle();
    below.onset_envelope = fx(999);
    below.beat_flash_intensity = fx(2_000_000);
    below.fade_decay = fx(9_999);
    below.glow_intensity = fx(9_999);
    below.chromatic_offset = fx(9_999);
    below.wave_amplitude = fx(999);
    below.hue_shift = fx(-999);
    below.stability_threshold = fx(999);
    let mut g = varied(6, 5);
    apply_effects(&mut g, &previous, &below, &wave, &mut EffectScratch::new());
    assert_eq!(g.cells, varied(6, 5).cells);
}

#[test]
fn chain_applies_the_effects_in_order() {
    let mut previous = varied(5, 4);
    previous.set(1, 1, cell(' ', (0, 0, 0)));
    let params = EffectParams {
        onset_envelope: fx(800_000),
        beat_flash_intensity: fx(700_000),
        fade_decay: fx(400_000),
        glow_intensity: fx(1_500_000),
        chromatic_offset: fx(1_200_000),
        wave_amplitude: fx(600_000),
        hue_shift: fx(210_000),
        stability_threshold: fx(900_000),
        scan_gap: 2,
        scan_darken: fx(600_000),
    };
    let wave = vec![fx(900_000), fx(-300_000), fx(450_000), fx(-1_000_000)];
    let start = || {
        let mut g = varied(5, 4);
        g.set(2, 2, cell(' ', (5, 6, 7)));
        g
    };

    let mut chained = start();
    let mut scratch = EffectScratch::new();
    apply_effects(&mut chained, &previous, &params, &wave, &mut scratch);

    let mut stepped = start();
    let mut brightness = Vec::new();
    let mut foreground = Vec::new();
    let mut row = Vec::new();
    apply_strobe(&mut stepped, params.onset_envelope, params.beat_flash_intensity);
    apply_fade_trails(&mut stepped, &previous, params.fade_decay);
    apply_glow(&mut stepped, params.glow_intensity, &mut brightness);
    apply_chromatic_aberration(&mut stepped, params.chromatic_offset, &mut foreground);
    apply_wave_distortion(&mut stepped, params.wave_amplitude, &wave, &mut row);
    apply_color_pulse(&mut stepped, params.hue_shift);
    apply_temporal_stability(&mut stepped, &previous, params.stability_threshold);
    apply_scan_lines(&mut stepped, params.scan_gap, params.scan_darken);

    assert_eq!(chained.cells, stepped.cells);
    assert_ne!(chained.cells, start().cells);
    assert_eq!(scratch.brightness, brightness);
    assert_eq!(scratch.foreground, foreground);
    assert_eq!(scratch.row, row);
}
