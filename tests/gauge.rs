use tcui::gauge::{build_gauge, n_lines, screen_layout, ROW_HEIGHT};
use tcui::teamcity::{Build, BuildStatus, BuildType, RunningInfo, SnapshotDependencies};

fn bt(name: &str) -> BuildType {
    BuildType {
        name: name.to_string(),
    }
}

fn no_deps() -> SnapshotDependencies {
    SnapshotDependencies { build: Vec::new() }
}

fn queued(name: &str) -> Build {
    Build::Queued {
        build_type: bt(name),
        web_url: "u".to_string(),
        snapshot_dependencies: no_deps(),
    }
}

fn running(name: &str, percent: u16) -> Build {
    Build::Running {
        build_type: bt(name),
        number: "1".to_string(),
        status: BuildStatus::Success,
        status_text: "Compiling".to_string(),
        web_url: "u".to_string(),
        running_info: RunningInfo {
            percentage_complete: percent,
            elapsed_seconds: 5,
            estimated_total_seconds: 50,
            outdated: false,
            probably_hanging: false,
        },
        snapshot_dependencies: no_deps(),
    }
}

fn finished(name: &str, deps: Vec<Build>) -> Build {
    Build::Finished {
        build_type: bt(name),
        number: "2".to_string(),
        status: BuildStatus::Failure,
        status_text: "Tests failed: 3".to_string(),
        web_url: "u".to_string(),
        snapshot_dependencies: SnapshotDependencies { build: deps },
    }
}

#[test]
fn queued_gauge_is_empty() {
    let g = build_gauge(&queued("Q"));
    assert_eq!(g.title, "Q");
    assert_eq!(g.percent, 0);
    assert_eq!(g.label, "");
}

#[test]
fn running_gauge_shows_progress() {
    let g = build_gauge(&running("R", 42));
    assert_eq!(g.title, "R");
    assert_eq!(g.percent, 42);
    assert_eq!(g.label, "Compiling");
}

#[test]
fn running_gauge_caps_at_hundred() {
    assert_eq!(build_gauge(&running("R", 150)).percent, 100);
    assert_eq!(build_gauge(&running("R", 100)).percent, 100);
    assert_eq!(build_gauge(&running("R", 0)).percent, 0);
}

#[test]
fn finished_gauge_is_full() {
    let g = build_gauge(&finished("F", Vec::new()));
    assert_eq!(g.title, "F");
    assert_eq!(g.percent, 100);
    assert_eq!(g.label, "Tests failed: 3");
}

#[test]
fn n_lines_gives_rows_of_gauge_height() {
    assert_eq!(n_lines(0), Vec::<u16>::new());
    assert_eq!(n_lines(3), vec![2, 2, 2]);
    assert_eq!(ROW_HEIGHT, 2);
}

#[test]
fn layout_without_dependencies_has_two_rows() {
    let screen = screen_layout(&queued("Solo"));
    assert_eq!(screen.rows, vec![2, 2]);
    assert_eq!(screen.gauges.len(), 1);
    assert_eq!(screen.gauges[0].title, "Solo");
}

#[test]
fn layout_has_one_row_per_dependency_plus_two() {
    let grandchild = queued("Grandchild");
    let child = finished("Child", vec![grandchild]);
    let root = finished("Root", vec![queued("A"), running("B", 30), child]);
    let screen = screen_layout(&root);
    assert_eq!(screen.rows.len(), 5);
    assert!(screen.rows.iter().all(|h| *h == ROW_HEIGHT));
    let titles: Vec<&str> = screen.gauges.iter().map(|g| g.title.as_str()).collect();
    assert_eq!(titles, vec!["Root", "A", "B", "Child"]);
    assert_eq!(screen.gauges[2].percent, 30);
    assert_eq!(screen.gauges[3].percent, 100);
}
