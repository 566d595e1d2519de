use newton_rows::image::{attractor_color, encode_row, gray, palette_color};
use newton_rows::pixel::{decide, Attractor, PixelResult, Probe, Step, MAX_ITERATIONS};

#[test]
fn decide_on_each_probe() {
    assert_eq!(
        decide(3, Probe::Collapsed, 5),
        Step::Stop(PixelResult { attractor: Attractor::Unclassified, iterations: 3 })
    );
    assert_eq!(
        decide(3, Probe::Matched(4), 5),
        Step::Stop(PixelResult { attractor: Attractor::Root(4), iterations: 4 })
    );
    assert_eq!(
        decide(3, Probe::Matched(5), 5),
        Step::Stop(PixelResult { attractor: Attractor::Unclassified, iterations: 4 })
    );
    assert_eq!(
        decide(0, Probe::Escaped, 2),
        Step::Stop(PixelResult { attractor: Attractor::Diverged, iterations: 1 })
    );
    assert_eq!(decide(0, Probe::Pending, 2), Step::Continue(1));
}

#[test]
fn decide_caps_iterations() {
    assert_eq!(MAX_ITERATIONS, 500);
    assert_eq!(decide(499, Probe::Pending, 7), Step::Continue(500));
    for probe in [Probe::Pending, Probe::Collapsed, Probe::Matched(0), Probe::Escaped] {
        assert_eq!(
            decide(500, probe, 7),
            Step::Stop(PixelResult { attractor: Attractor::Unclassified, iterations: 500 })
        );
    }
}

#[test]
fn iteration_counts_stay_in_range() {
    let mut it = 0usize;
    loop {
        match decide(it, Probe::Pending, 1) {
            Step::Continue(n) => {
                assert_eq!(n, it + 1);
                it = n;
            }
            Step::Stop(p) => {
                assert!(p.iterations <= 500);
                assert_eq!(p.iterations, 500);
                break;
            }
        }
    }
}

#[test]
fn degree_one_converges_on_second_step() {
    // z is moved onto 1 + 0i by the first update and matches root 0 next.
    assert_eq!(decide(0, Probe::Pending, 1), Step::Continue(1));
    assert_eq!(
        decide(1, Probe::Matched(0), 1),
        Step::Stop(PixelResult { attractor: Attractor::Root(0), iterations: 2 })
    );
}

#[test]
fn palette_and_gray_levels() {
    assert_eq!(palette_color(0), (128, 128, 128));
    assert_eq!(palette_color(1), (255, 0, 0));
    assert_eq!(palette_color(7), (255, 255, 0));
    assert_eq!(attractor_color(Attractor::Root(0)), (255, 0, 0));
    assert_eq!(attractor_color(Attractor::Root(3)), (255, 145, 0));
    assert_eq!(attractor_color(Attractor::Unclassified), (128, 128, 128));
    assert_eq!(attractor_color(Attractor::Diverged), (128, 128, 128));
    assert_eq!(gray(0), 0);
    assert_eq!(gray(42), 42);
    assert_eq!(gray(255), 255);
    assert_eq!(gray(500), 255);
}

#[test]
fn encode_row_bytes() {
    let row = vec![
        PixelResult { attractor: Attractor::Root(1), iterations: 7 },
        PixelResult { attractor: Attractor::Unclassified, iterations: 300 },
    ];
    let (colors, grays) = encode_row(&row);
    assert_eq!(colors, vec![0, 255, 255, 128, 128, 128]);
    assert_eq!(grays, vec![7, 7, 7, 255, 255, 255]);
    let (c, g) = encode_row(&Vec::new());
    assert!(c.is_empty() && g.is_empty());
}
