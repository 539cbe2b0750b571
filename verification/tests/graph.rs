use std::str::FromStr;

use grapher::fixed::SCALE;
use grapher::geometry::{map_point, polyline_segments, unmap_point, Rect, ScreenPoint};
use grapher::sampling::{resolve_samples, sample_xs};
use grapher::scene::{axis_segments, render_scene, GraphConfig};

fn square_rect() -> Rect {
    Rect { left: 0, top: 0, right: 100 * SCALE, bottom: 100 * SCALE }
}

fn unit_domain() -> (i64, i64) {
    (-SCALE, SCALE)
}

#[test]
fn default_config_is_the_parabola() {
    let c = GraphConfig::default();
    assert_eq!(c.function, "x * x");
    assert_eq!(c.x_min, -10 * SCALE);
    assert_eq!(c.x_max, 10 * SCALE);
    assert_eq!(c.points, 100);
    assert!(!c.show_axes);
}

#[test]
fn midpoint_maps_to_center() {
    // rect = (left 0, right 100, top 0, bottom 100), domain [-1, 1]:
    // x = 0 lands at screen_x = 50, y = 0 at screen_y = 50.
    let rect = square_rect();
    let (x_min, x_max) = unit_domain();
    let p = map_point(&rect, x_min, x_max, 0, 0);
    assert_eq!(p.x, 50 * SCALE);
    assert_eq!(p.y, 50 * SCALE);
}

#[test]
fn corners_map_to_edges() {
    let rect = square_rect();
    let (x_min, x_max) = unit_domain();
    let p = map_point(&rect, x_min, x_max, x_min, -SCALE);
    assert_eq!(p.x, 0);
    assert_eq!(p.y, 100 * SCALE);
    let q = map_point(&rect, x_min, x_max, x_max, SCALE);
    assert_eq!(q.x, 100 * SCALE);
    assert_eq!(q.y, 0);
}

#[test]
fn valid_expression_matches_closed_form() {
    // The expression engine agrees with the formula written directly.
    let f = meval::Expr::from_str("x * x").unwrap().bind("x").unwrap();
    assert_eq!(f(3.0), 9.0);
    for i in -20..=20 {
        let x = (i as f64) / 4.0;
        assert_eq!(f(x), x * x);
    }
}

#[test]
fn evaluations_pass_through_when_bound() {
    let evals: Vec<i64> = vec![1, -2, 3, SCALE, 0];
    let r = resolve_samples("x * x", &evals);
    assert_eq!(r, evals);
}

#[test]
fn unparseable_falls_back_to_one() {
    // "x + (" does not parse: every sample becomes exactly 1.0.
    let evals: Vec<i64> = vec![123, -456, 789];
    let r = resolve_samples("x + (", &evals);
    assert_eq!(r, vec![SCALE, SCALE, SCALE]);
    let r = resolve_samples("", &evals);
    assert_eq!(r, vec![SCALE, SCALE, SCALE]);
    let r = resolve_samples("x + y", &evals);
    assert_eq!(r, vec![SCALE, SCALE, SCALE]);
}

#[test]
fn blank_text_falls_back_to_one() {
    // Whitespace-only text never reaches the parser (whose tokenizer
    // cannot take it) and falls back like a parse failure.
    let evals: Vec<i64> = vec![123, -456, 789];
    for text in [" ", "\t", "\n", "\r", " \t\n ", "   "] {
        let r = resolve_samples(text, &evals);
        assert_eq!(r, vec![SCALE, SCALE, SCALE]);
    }
}

#[test]
fn blank_text_renders_the_constant_line() {
    let rect = square_rect();
    let (x_min, x_max) = unit_domain();
    let cfg = GraphConfig {
        function: String::from("  "),
        x_min,
        x_max,
        points: 10,
        show_axes: false,
    };
    let evals: Vec<i64> = vec![0; 11];
    let sc = render_scene(&cfg, &rect, &evals);
    let xs = sample_xs(x_min, x_max, 10);
    for (i, seg) in sc.curve.iter().enumerate() {
        assert_eq!(seg.a, map_point(&rect, x_min, x_max, xs[i], SCALE));
        assert_eq!(seg.b, map_point(&rect, x_min, x_max, xs[i + 1], SCALE));
    }
}

#[test]
fn unparseable_renders_the_constant_line() {
    let rect = square_rect();
    let (x_min, x_max) = unit_domain();
    let cfg = GraphConfig {
        function: String::from("x + ("),
        x_min,
        x_max,
        points: 10,
        show_axes: false,
    };
    let evals: Vec<i64> = vec![0; 11];
    let sc = render_scene(&cfg, &rect, &evals);
    let xs = sample_xs(x_min, x_max, 10);
    for (i, seg) in sc.curve.iter().enumerate() {
        assert_eq!(seg.a, map_point(&rect, x_min, x_max, xs[i], SCALE));
        assert_eq!(seg.b, map_point(&rect, x_min, x_max, xs[i + 1], SCALE));
    }
}

#[test]
fn sample_count_gives_one_more_point_and_n_segments() {
    let (x_min, x_max) = unit_domain();
    for n in [10usize, 100, 500] {
        let xs = sample_xs(x_min, x_max, n);
        assert_eq!(xs.len(), n + 1);
        let cfg = GraphConfig {
            function: String::from("x"),
            x_min,
            x_max,
            points: n,
            show_axes: false,
        };
        let evals: Vec<i64> = vec![0; n + 1];
        let sc = render_scene(&cfg, &square_rect(), &evals);
        assert_eq!(sc.curve.len(), n);
    }
}

#[test]
fn samples_start_at_x_min_and_step_evenly() {
    let xs = sample_xs(0, 10 * SCALE, 10);
    let step = 10 * SCALE / 10;
    for (i, &x) in xs.iter().enumerate() {
        assert_eq!(x, (i as i64) * step);
    }
}

#[test]
fn map_then_unmap_returns_the_point() {
    // The mapping is affine and invertible: here a pixel is finer than
    // a domain subunit, so the round trip is within one subunit.
    let rect = square_rect();
    let (x_min, x_max) = unit_domain();
    let span = x_max - x_min;
    let width = rect.right - rect.left;
    let height = rect.bottom - rect.top;
    let x_tol = (span + width - 1) / width;
    let y_tol = (2 * SCALE + height - 1) / height;
    for &(x, y) in &[(0i64, 0i64), (12345, -23456), (-65536, 65536), (65535, -1)] {
        let p = map_point(&rect, x_min, x_max, x, y);
        let (ux, uy) = unmap_point(&rect, x_min, x_max, p);
        assert!(ux <= x && x - ux <= x_tol);
        assert!(uy <= y && y - uy <= y_tol);
    }
    // At the exact midpoint the round trip is exact.
    let p = map_point(&rect, x_min, x_max, 0, 0);
    assert_eq!(unmap_point(&rect, x_min, x_max, p), (0, 0));
}

#[test]
fn axis_lines_span_domain_and_double_height() {
    let rect = square_rect();
    let (x_min, x_max) = unit_domain();
    let h = rect.bottom - rect.top;
    let ax = axis_segments(&rect, x_min, x_max);
    assert_eq!(ax.x_axis.a, map_point(&rect, x_min, x_max, x_min, 0));
    assert_eq!(ax.x_axis.b, map_point(&rect, x_min, x_max, x_max, 0));
    assert_eq!(ax.y_axis.a, map_point(&rect, x_min, x_max, 0, -h));
    assert_eq!(ax.y_axis.b, map_point(&rect, x_min, x_max, 0, h));
    // The horizontal axis sits on y = 0 whatever the function drawn.
    assert_eq!(ax.x_axis.a.y, 50 * SCALE);
    assert_eq!(ax.x_axis.b.y, 50 * SCALE);
}

#[test]
fn axes_appear_only_when_enabled() {
    let rect = square_rect();
    let (x_min, x_max) = unit_domain();
    let evals: Vec<i64> = vec![0; 11];
    let mut cfg = GraphConfig {
        function: String::from("x"),
        x_min,
        x_max,
        points: 10,
        show_axes: false,
    };
    assert!(render_scene(&cfg, &rect, &evals).axes.is_none());
    cfg.show_axes = true;
    let sc = render_scene(&cfg, &rect, &evals);
    let ax = sc.axes.expect("axes requested");
    assert_eq!(ax.x_axis.a, map_point(&rect, x_min, x_max, x_min, 0));
    assert_eq!(ax.x_axis.b, map_point(&rect, x_min, x_max, x_max, 0));
}

#[test]
fn rendered_curve_follows_the_evaluations() {
    // Evaluate the parabola with the expression engine, feed the
    // fixed-point values through the renderer, and check each vertex
    // against the closed form mapped by hand.
    let rect = square_rect();
    let x_min = -2 * SCALE;
    let x_max = 2 * SCALE;
    let n = 10usize;
    let f = meval::Expr::from_str("x * x").unwrap().bind("x").unwrap();
    let xs = sample_xs(x_min, x_max, n);
    let evals: Vec<i64> = xs
        .iter()
        .map(|&x| {
            let xf = (x as f64) / (SCALE as f64);
            (f(xf) * (SCALE as f64)).round() as i64
        })
        .collect();
    for (i, &x) in xs.iter().enumerate() {
        let xf = (x as f64) / (SCALE as f64);
        let direct = ((xf * xf) * (SCALE as f64)).round() as i64;
        assert_eq!(evals[i], direct);
    }
    let cfg = GraphConfig {
        function: String::from("x * x"),
        x_min,
        x_max,
        points: n,
        show_axes: false,
    };
    let sc = render_scene(&cfg, &rect, &evals);
    assert_eq!(sc.curve.len(), n);
    for (i, seg) in sc.curve.iter().enumerate() {
        assert_eq!(seg.a, map_point(&rect, x_min, x_max, xs[i], evals[i]));
        assert_eq!(seg.b, map_point(&rect, x_min, x_max, xs[i + 1], evals[i + 1]));
    }
}

#[test]
fn polyline_connects_consecutive_points() {
    let pts = vec![
        ScreenPoint { x: 0, y: 0 },
        ScreenPoint { x: 1, y: 2 },
        ScreenPoint { x: 3, y: 4 },
    ];
    let segs = polyline_segments(&pts);
    assert_eq!(segs.len(), 2);
    assert_eq!(segs[0].a, pts[0]);
    assert_eq!(segs[0].b, pts[1]);
    assert_eq!(segs[1].a, pts[1]);
    assert_eq!(segs[1].b, pts[2]);
}
