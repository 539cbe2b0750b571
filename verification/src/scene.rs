//! The configuration a user edits and the scene drawn from it.
//!
//! Each frame, the renderer takes the current configuration and the
//! rectangle left for the graph, samples the formula across the
//! domain, and returns the line segments to draw: the curve, and the
//! two axis lines when those are switched on. The vertical axis keeps
//! a quirk of the drawing routine: its conceptual extent is the
//! rectangle's height taken as a pair of ordinates, so the line runs
//! well past the rectangle.

use vstd::prelude::*;
use vstd::string::StringExecFns;

use crate::fixed::{in_range, in_y_range, SCALE};
use crate::geometry::{
    map_point, map_x_spec, map_y_spec, polyline_segments, Rect, ScreenPoint, Segment,
};
use crate::sampling::{formula_binds, resolve_samples, sample_value, sample_xs, step_spec};

verus! {

/// What the user controls: the formula text, the domain, how many
/// steps to sample it in, and whether the axes are drawn.
pub struct GraphConfig {
    pub function: String,
    pub x_min: i64,
    pub x_max: i64,
    pub points: usize,
    pub show_axes: bool,
}

impl GraphConfig {
    /// The domain bounds are coordinates in range and ordered, and the
    /// sample count sits within the slider's bounds.
    pub open spec fn wf(self) -> bool {
        &&& in_range(self.x_min as int)
        &&& in_range(self.x_max as int)
        &&& self.x_min < self.x_max
        &&& 10 <= self.points <= 500
    }

    /// The abscissa of the i-th sample.
    pub open spec fn sample_x(self, i: int) -> int {
        self.x_min + i * step_spec(self.x_min as int, self.x_max as int, self.points as int)
    }
}

impl Default for GraphConfig {
    /// The startup state: the parabola over ten units either side of
    /// zero, a hundred samples, axes hidden.
    fn default() -> (c: Self)
        ensures
            c.function@ == "x * x"@,
            c.x_min == -10 * SCALE,
            c.x_max == 10 * SCALE,
            c.points == 100,
            !c.show_axes,
            c.wf(),
    {
        GraphConfig {
            function: String::from_str("x * x"),
            x_min: -10 * SCALE,
            x_max: 10 * SCALE,
            points: 100,
            show_axes: false,
        }
    }
}

/// The two axis lines.
#[derive(Clone, Copy, Debug, PartialEq, Eq, Structural)]
pub struct Axes {
    pub x_axis: Segment,
    pub y_axis: Segment,
}

/// Everything one frame draws: the curve's segments in order, and the
/// axes where they are switched on.
pub struct Scene {
    pub curve: Vec<Segment>,
    pub axes: Option<Axes>,
}

/// The axis lines: the horizontal one across the whole domain at
/// `y = 0`, the vertical one at `x = 0` running from minus the
/// rectangle's height to the height — twice the visible extent.
pub fn axis_segments(rect: &Rect, x_min: i64, x_max: i64) -> (ax: Axes)
    requires
        rect.wf(),
        in_range(x_min as int),
        in_range(x_max as int),
        x_min < x_max,
    ensures
        ax.x_axis.a.x == map_x_spec(*rect, x_min as int, x_max as int, x_min as int),
        ax.x_axis.a.y == map_y_spec(*rect, 0),
        ax.x_axis.b.x == map_x_spec(*rect, x_min as int, x_max as int, x_max as int),
        ax.x_axis.b.y == map_y_spec(*rect, 0),
        ax.y_axis.a.x == map_x_spec(*rect, x_min as int, x_max as int, 0),
        ax.y_axis.a.y == map_y_spec(*rect, -rect.spec_height()),
        ax.y_axis.b.x == map_x_spec(*rect, x_min as int, x_max as int, 0),
        ax.y_axis.b.y == map_y_spec(*rect, rect.spec_height()),
{
    let h = rect.height();
    let x_start = map_point(rect, x_min, x_max, x_min, 0);
    let x_end = map_point(rect, x_min, x_max, x_max, 0);
    let y_start = map_point(rect, x_min, x_max, 0, -h);
    let y_end = map_point(rect, x_min, x_max, 0, h);
    Axes {
        x_axis: Segment { a: x_start, b: x_end },
        y_axis: Segment { a: y_start, b: y_end },
    }
}

/// The value the i-th sample is drawn at: the i-th evaluation where
/// the formula binds, the constant one where it does not (blank text
/// counts as failing to parse).
pub open spec fn drawn_value(cfg: GraphConfig, evals: Seq<i64>, i: int) -> int {
    sample_value(formula_binds(cfg.function@), evals[i] as int)
}

/// Builds the scene one frame draws: `points` curve segments, the
/// i-th running from the mapped i-th sample to the mapped next one,
/// and the axes when they are switched on. `evals` holds the formula
/// evaluated at each of the `points + 1` sample abscissas; it is
/// ignored where the formula does not bind.
pub fn render_scene(cfg: &GraphConfig, rect: &Rect, evals: &Vec<i64>) -> (sc: Scene)
    requires
        cfg.wf(),
        rect.wf(),
        evals@.len() == cfg.points + 1,
        forall|i: int| 0 <= i < evals@.len() ==> in_y_range(#[trigger] evals@[i] as int),
    ensures
        sc.curve@.len() == cfg.points,
        forall|i: int|
            0 <= i < cfg.points ==> {
                &&& (#[trigger] sc.curve@[i]).a.x == map_x_spec(
                    *rect,
                    cfg.x_min as int,
                    cfg.x_max as int,
                    cfg.sample_x(i),
                )
                &&& sc.curve@[i].a.y == map_y_spec(*rect, drawn_value(*cfg, evals@, i))
                &&& sc.curve@[i].b.x == map_x_spec(
                    *rect,
                    cfg.x_min as int,
                    cfg.x_max as int,
                    cfg.sample_x(i + 1),
                )
                &&& sc.curve@[i].b.y == map_y_spec(*rect, drawn_value(*cfg, evals@, i + 1))
            },
        sc.axes is Some <==> cfg.show_axes,
        cfg.show_axes ==> {
            let ax = sc.axes->Some_0;
            &&& ax.x_axis.a.x == map_x_spec(*rect, cfg.x_min as int, cfg.x_max as int, cfg.x_min as int)
            &&& ax.x_axis.a.y == map_y_spec(*rect, 0)
            &&& ax.x_axis.b.x == map_x_spec(*rect, cfg.x_min as int, cfg.x_max as int, cfg.x_max as int)
            &&& ax.x_axis.b.y == map_y_spec(*rect, 0)
            &&& ax.y_axis.a.x == map_x_spec(*rect, cfg.x_min as int, cfg.x_max as int, 0)
            &&& ax.y_axis.a.y == map_y_spec(*rect, -rect.spec_height())
            &&& ax.y_axis.b.x == map_x_spec(*rect, cfg.x_min as int, cfg.x_max as int, 0)
            &&& ax.y_axis.b.y == map_y_spec(*rect, rect.spec_height())
        },
{
    let n = cfg.points;
    let xs = sample_xs(cfg.x_min, cfg.x_max, n);
    let ys = resolve_samples(cfg.function.as_str(), evals);
    let mut pts: Vec<ScreenPoint> = Vec::new();
    let mut i: usize = 0;
    while i < n + 1
        invariant
            i <= n + 1,
            cfg.wf(),
            rect.wf(),
            n == cfg.points,
            xs@.len() == n + 1,
            ys@.len() == n + 1,
            evals@.len() == n + 1,
            forall|j: int| 0 <= j <= n ==> xs@[j] == cfg.sample_x(j),
            forall|j: int| 0 <= j <= n ==> cfg.x_min <= #[trigger] xs@[j] && xs@[j] <= cfg.x_max,
            forall|j: int| 0 <= j <= n ==> ys@[j] == drawn_value(*cfg, evals@, j),
            forall|j: int| 0 <= j <= n ==> in_y_range(#[trigger] evals@[j] as int),
            pts@.len() == i,
            forall|j: int|
                0 <= j < i ==> {
                    &&& (#[trigger] pts@[j]).x == map_x_spec(
                        *rect,
                        cfg.x_min as int,
                        cfg.x_max as int,
                        cfg.sample_x(j),
                    )
                    &&& pts@[j].y == map_y_spec(*rect, drawn_value(*cfg, evals@, j))
                },
        decreases n + 1 - i,
    {
        let p = map_point(rect, cfg.x_min, cfg.x_max, xs[i], ys[i]);
        pts.push(p);
        i = i + 1;
    }
    let curve = polyline_segments(&pts);
    let axes = if cfg.show_axes {
        Some(axis_segments(rect, cfg.x_min, cfg.x_max))
    } else {
        None
    };
    Scene { curve, axes }
}

} // verus!

