use command_relay::local::{Invocation, Shell};
use command_relay::scaffold::{build_job, Bootstrap, BuildJob, Layout, Scaffold};

fn text(s: &str) -> String {
    s.to_string()
}

fn job(chat: i64, source: &str) -> BuildJob {
    build_job(&Layout::standard(), Shell::Posix, chat, source)
}

#[test]
fn standard_layout() {
    let layout = Layout::standard();
    assert_eq!(layout, Layout { root: text("builds"), project: text("bot") });
    assert_eq!(layout.entry(), "builds/bot/src/main.rs");
    assert_eq!(layout.build(), "cd builds && cd bot && cargo run");
    assert_eq!(layout.generate(), "cargo new builds/bot");
}

#[test]
fn other_layout() {
    let layout = Layout { root: text("work"), project: text("runner") };
    assert_eq!(layout.entry(), "work/runner/src/main.rs");
    assert_eq!(layout.build(), "cd work && cd runner && cargo run");
    assert_eq!(layout.generate(), "cargo new work/runner");
}

#[test]
fn build_job_on_posix() {
    assert_eq!(
        job(4, " fn main() {}"),
        BuildJob {
            chat: 4,
            file: text("builds/bot/src/main.rs"),
            source: text(" fn main() {}"),
            command: Invocation {
                program: text("sh"),
                args: vec![text("-c"), text("cd builds && cd bot && cargo run")],
            },
        }
    );
}

#[test]
fn build_job_on_windows() {
    let job = build_job(&Layout::standard(), Shell::Windows, 4, "x");
    assert_eq!(
        job.command,
        Invocation {
            program: text("cmd"),
            args: vec![text("/C"), text("cd builds && cd bot && cargo run")],
        }
    );
}

#[test]
fn bootstrap_creates_a_missing_scaffold() {
    let mut scaffold = Scaffold::new();
    let plan = scaffold.bootstrap(&Layout::standard(), Shell::Posix, false);
    assert_eq!(
        plan,
        Bootstrap::Create {
            directory: text("builds"),
            generate: Invocation {
                program: text("sh"),
                args: vec![text("-c"), text("cargo new builds/bot")],
            },
        }
    );
}

#[test]
fn bootstrap_on_windows() {
    let mut scaffold = Scaffold::new();
    let plan = scaffold.bootstrap(&Layout::standard(), Shell::Windows, false);
    assert_eq!(
        plan,
        Bootstrap::Create {
            directory: text("builds"),
            generate: Invocation {
                program: text("cmd"),
                args: vec![text("/C"), text("cargo new builds/bot")],
            },
        }
    );
}

#[test]
fn bootstrap_keeps_a_scaffold_that_is_there() {
    let mut scaffold = Scaffold::new();
    assert_eq!(scaffold.bootstrap(&Layout::standard(), Shell::Posix, true), Bootstrap::Keep);
}

#[test]
fn bootstrap_runs_once() {
    let layout = Layout::standard();
    let mut scaffold = Scaffold::new();
    assert_ne!(scaffold.bootstrap(&layout, Shell::Posix, false), Bootstrap::Keep);
    assert_eq!(scaffold.bootstrap(&layout, Shell::Posix, true), Bootstrap::Keep);
    assert_eq!(scaffold.bootstrap(&layout, Shell::Posix, false), Bootstrap::Keep);
    assert_eq!(scaffold.bootstrap(&layout, Shell::Posix, false), Bootstrap::Keep);
}

#[test]
fn bootstrap_of_a_present_scaffold_runs_nothing_later_either() {
    let layout = Layout::standard();
    let mut scaffold = Scaffold::new();
    assert_eq!(scaffold.bootstrap(&layout, Shell::Posix, true), Bootstrap::Keep);
    assert_eq!(scaffold.bootstrap(&layout, Shell::Posix, false), Bootstrap::Keep);
}

#[test]
fn fresh_scaffold_is_free() {
    let scaffold = Scaffold::new();
    assert!(!scaffold.busy());
    assert_eq!(scaffold.waiting(), 0);
}

#[test]
fn first_build_starts_at_once() {
    let mut scaffold = Scaffold::new();
    assert_eq!(scaffold.submit(job(1, "a")), Some(job(1, "a")));
    assert!(scaffold.busy());
    assert_eq!(scaffold.waiting(), 0);
}

#[test]
fn second_build_waits_for_the_first() {
    let mut scaffold = Scaffold::new();
    assert_eq!(scaffold.submit(job(1, "a")), Some(job(1, "a")));
    assert_eq!(scaffold.submit(job(2, "b")), None);
    assert!(scaffold.busy());
    assert_eq!(scaffold.waiting(), 1);
    assert_eq!(scaffold.finish(), Some(job(2, "b")));
    assert!(scaffold.busy());
    assert_eq!(scaffold.waiting(), 0);
    assert_eq!(scaffold.finish(), None);
    assert!(!scaffold.busy());
}

#[test]
fn builds_start_in_the_order_asked() {
    let mut scaffold = Scaffold::new();
    assert!(scaffold.submit(job(1, "a")).is_some());
    assert!(scaffold.submit(job(2, "b")).is_none());
    assert!(scaffold.submit(job(3, "c")).is_none());
    assert!(scaffold.submit(job(2, "d")).is_none());
    assert_eq!(scaffold.waiting(), 3);
    assert_eq!(scaffold.finish(), Some(job(2, "b")));
    assert!(scaffold.submit(job(4, "e")).is_none());
    assert_eq!(scaffold.finish(), Some(job(3, "c")));
    assert_eq!(scaffold.finish(), Some(job(2, "d")));
    assert_eq!(scaffold.finish(), Some(job(4, "e")));
    assert_eq!(scaffold.finish(), None);
    assert!(!scaffold.busy());
}

#[test]
fn free_scaffold_starts_the_next_build_at_once() {
    let mut scaffold = Scaffold::new();
    assert!(scaffold.submit(job(1, "a")).is_some());
    assert_eq!(scaffold.finish(), None);
    assert_eq!(scaffold.submit(job(2, "b")), Some(job(2, "b")));
}

#[test]
fn end_without_a_build_changes_nothing() {
    let mut scaffold = Scaffold::new();
    assert_eq!(scaffold.finish(), None);
    assert!(!scaffold.busy());
    assert_eq!(scaffold.waiting(), 0);
    assert_eq!(scaffold.submit(job(1, "a")), Some(job(1, "a")));
}

#[test]
fn bootstrap_leaves_the_builds_alone() {
    let mut scaffold = Scaffold::new();
    assert!(scaffold.submit(job(1, "a")).is_some());
    assert!(scaffold.submit(job(2, "b")).is_none());
    scaffold.bootstrap(&Layout::standard(), Shell::Posix, false);
    assert!(scaffold.busy());
    assert_eq!(scaffold.waiting(), 1);
    assert_eq!(scaffold.finish(), Some(job(2, "b")));
}
