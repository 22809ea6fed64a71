//! The on-screen projection of a build tree: one gauge per row.
use crate::teamcity::{dependencies, Build};
use vstd::prelude::*;

verus! {

/// Height of one gauge row, in terminal lines.
pub const ROW_HEIGHT: u16 = 2;

/// What one gauge shows.
pub struct GaugeView {
    pub title: String,
    pub percent: u16,
    pub label: String,
}

/// Completion shown for a build: none while queued, the reported progress
/// (capped at 100) while running, all of it once finished.
pub open spec fn percent_of(b: Build) -> u16 {
    match b {
        Build::Queued { .. } => 0,
        Build::Running { running_info, .. } => if running_info.percentage_complete <= 100 {
            running_info.percentage_complete
        } else {
            100
        },
        Build::Finished { .. } => 100,
    }
}

pub open spec fn label_of(b: Build) -> Seq<char> {
    match b {
        Build::Queued { .. } => Seq::empty(),
        Build::Running { status_text, .. } => status_text@,
        Build::Finished { status_text, .. } => status_text@,
    }
}

/// Whether `g` is the gauge of build `b`.
pub open spec fn shows(g: GaugeView, b: Build) -> bool {
    &&& g.title@ == b.spec_build_type().name@
    &&& g.percent == percent_of(b)
    &&& g.label@ == label_of(b)
}

/// The gauge of one build node.
pub fn build_gauge(build: &Build) -> (g: GaugeView)
    ensures
        shows(g, *build),
        g.percent <= 100,
        build is Queued ==> g.percent == 0,
        build is Finished ==> g.percent == 100,
{
    let (title, percent) = match build {
        Build::Queued { build_type, .. } => (build_type.name.clone(), 0),
        Build::Running { build_type, running_info, .. } => {
            let p = if running_info.percentage_complete <= 100 {
                running_info.percentage_complete
            } else {
                100
            };
            (build_type.name.clone(), p)
        },
        Build::Finished { build_type, .. } => (build_type.name.clone(), 100),
    };
    let label = match build {
        Build::Queued { .. } => String::new(),
        Build::Running { status_text, .. } => status_text.clone(),
        Build::Finished { status_text, .. } => status_text.clone(),
    };
    GaugeView { title, percent, label }
}

/// `size` rows of gauge height.
pub fn n_lines(size: usize) -> (r: Vec<u16>)
    ensures
        r@.len() == size,
        forall|i: int| 0 <= i < size ==> r@[i] == ROW_HEIGHT,
{
    let mut r: Vec<u16> = Vec::new();
    let mut i: usize = 0;
    while i < size
        invariant
            i <= size,
            r@.len() == i,
            forall|k: int| 0 <= k < i ==> r@[k] == ROW_HEIGHT,
        decreases size - i,
    {
        r.push(ROW_HEIGHT);
        i = i + 1;
    }
    r
}

/// A full screen: the row heights from top to bottom, and the gauges that
/// fill the first rows; the last row stays blank.
pub struct Screen {
    pub rows: Vec<u16>,
    pub gauges: Vec<GaugeView>,
}

/// The screen for `build`: its own gauge first, then one gauge per direct
/// dependency in server order, then a blank row. Deeper dependencies are not
/// shown.
pub fn screen_layout(build: &Build) -> (r: Screen)
    ensures
        r.rows@.len() == build.deps().len() + 2,
        forall|i: int| 0 <= i < r.rows@.len() ==> r.rows@[i] == ROW_HEIGHT,
        r.gauges@.len() == build.deps().len() + 1,
        shows(r.gauges@[0], *build),
        forall|i: int| 0 <= i < build.deps().len() ==> shows(#[trigger] r.gauges@[i + 1], build.deps()[i]),
{
    let deps = dependencies(build);
    let mut gauges: Vec<GaugeView> = Vec::new();
    gauges.push(build_gauge(build));
    let mut i: usize = 0;
    while i < deps.len()
        invariant
            i <= deps@.len(),
            deps@ == build.deps(),
            gauges@.len() == i + 1,
            shows(gauges@[0], *build),
            forall|k: int| 0 <= k < i ==> shows(#[trigger] gauges@[k + 1], deps@[k]),
        decreases deps@.len() - i,
    {
        gauges.push(build_gauge(&deps[i]));
        i = i + 1;
    }
    let mut rows = n_lines(gauges.len());
    rows.push(ROW_HEIGHT);
    Screen { rows, gauges }
}

} // verus!
