use image_organizer::image_queue::ImageQueueState;
use image_organizer::organize_mode::OrganizeMode;
use image_organizer::organize_run::{FileOp, OrganizeRun, Outcome, Phase};
use image_organizer::organizer::build_plan;
use image_organizer::side_panel::SidePanelState;

fn describe(op: &FileOp) -> String {
    match op {
        FileOp::CreateDir { path } => format!("mkdir {}", path),
        FileOp::Copy { from, to } => format!("copy {} {}", from, to),
        FileOp::Remove { path } => format!("rm {}", path),
        FileOp::Symlink { target, link } => format!("ln {} {}", target, link),
    }
}

/// Drives a run to its end, failing each operation whose description `fails` picks.
fn drive(run: &mut OrganizeRun, fails: &dyn Fn(&str) -> bool) -> Vec<String> {
    let mut ops = Vec::new();
    while let Some(op) = run.next_op() {
        let d = describe(&op);
        let outcome = if fails(&d) { Outcome::Failed("denied".to_string()) } else { Outcome::Done };
        ops.push(d);
        run.record(outcome);
    }
    assert!(run.is_finished());
    ops
}

fn queue(entries: &[(&str, &[char])]) -> ImageQueueState {
    let mut q = ImageQueueState::new(entries.iter().map(|e| e.0.to_string()).collect());
    for (i, (_, tags)) in entries.iter().enumerate() {
        q.selected_image_index = i;
        for t in tags.iter() {
            q.toggle_tag(*t);
        }
    }
    q.selected_image_index = 0;
    q
}

fn registry(pairs: &[(char, &str)]) -> SidePanelState {
    let mut r = SidePanelState::new("Tags".to_string());
    for (k, v) in pairs {
        r.insert(*k, v.to_string());
    }
    r
}

fn cats_and_dogs(mode: OrganizeMode) -> OrganizeRun {
    let q = queue(&[("a.png", &['x']), ("b.png", &['y'])]);
    let r = registry(&[('x', "cats"), ('y', "dogs")]);
    OrganizeRun::start(mode, &q, &r, "/src".to_string(), "/dst".to_string())
}

#[test]
fn copy_mode_files_copies_and_keeps_originals() {
    let mut run = cats_and_dogs(OrganizeMode::Copy);
    let ops = drive(&mut run, &|_| false);
    assert_eq!(
        ops,
        vec![
            "mkdir /dst/cats",
            "copy /src/a.png /dst/cats/a.png",
            "mkdir /dst/dogs",
            "copy /src/b.png /dst/dogs/b.png",
        ]
    );
    assert_eq!(run.log, vec!["a.png copied", "b.png copied"]);
}

#[test]
fn move_mode_copies_then_removes_originals() {
    let mut run = cats_and_dogs(OrganizeMode::Move);
    let ops = drive(&mut run, &|_| false);
    assert_eq!(
        ops,
        vec![
            "mkdir /dst/cats",
            "copy /src/a.png /dst/cats/a.png",
            "rm /src/a.png",
            "mkdir /dst/dogs",
            "copy /src/b.png /dst/dogs/b.png",
            "rm /src/b.png",
        ]
    );
    assert_eq!(
        run.log,
        vec!["a.png copied", "Original a.png removed", "b.png copied", "Original b.png removed"]
    );
}

#[test]
fn link_mode_links_to_originals() {
    let mut run = cats_and_dogs(OrganizeMode::Link);
    let ops = drive(&mut run, &|_| false);
    assert_eq!(
        ops,
        vec![
            "mkdir /dst/cats",
            "ln /src/a.png /dst/cats/a.png",
            "mkdir /dst/dogs",
            "ln /src/b.png /dst/dogs/b.png",
        ]
    );
    assert_eq!(run.log, vec!["a.png linked", "b.png linked"]);
}

#[test]
fn move_keeps_original_when_copy_fails() {
    let mut run = cats_and_dogs(OrganizeMode::Move);
    let ops = drive(&mut run, &|d| d == "copy /src/a.png /dst/cats/a.png");
    assert!(!ops.contains(&"rm /src/a.png".to_string()));
    assert!(ops.contains(&"rm /src/b.png".to_string()));
    assert_eq!(run.log[0], "Error copying a.png: denied");
}

#[test]
fn move_reports_dangling_duplicate() {
    let mut run = cats_and_dogs(OrganizeMode::Move);
    drive(&mut run, &|d| d == "rm /src/b.png");
    assert_eq!(
        run.log[3],
        "b.png copied, but the original could not be removed and both now exist: denied"
    );
}

#[test]
fn failed_links_and_copies_are_logged_and_the_batch_goes_on() {
    let mut run = cats_and_dogs(OrganizeMode::Link);
    let ops = drive(&mut run, &|d| d.starts_with("ln /src/a.png"));
    assert_eq!(ops.len(), 4);
    assert_eq!(run.log, vec!["Error linking a.png: denied", "b.png linked"]);
    let mut run = cats_and_dogs(OrganizeMode::Copy);
    drive(&mut run, &|_| true);
    assert_eq!(
        run.log,
        vec!["Error creating /dst/cats: denied", "Error creating /dst/dogs: denied"]
    );
}

#[test]
fn unregistered_tag_files_nothing() {
    let q = queue(&[("a.png", &['x']), ("b.png", &['q']), ("c.png", &['q', 'x'])]);
    let r = registry(&[('x', "cats")]);
    let plan = build_plan(&q, &r);
    assert_eq!(plan.len(), 1);
    assert_eq!(plan[0].label, "cats");
    assert_eq!(plan[0].paths, vec!["a.png", "c.png"]);
    let mut run = OrganizeRun::start(OrganizeMode::Copy, &q, &r, "s".to_string(), "d".to_string());
    let ops = drive(&mut run, &|_| false);
    assert!(ops.iter().all(|o| !o.contains("b.png")));
}

#[test]
fn no_registered_tags_means_an_empty_plan() {
    let q = queue(&[("a.png", &['x']), ("b.png", &[])]);
    let r = registry(&[]);
    assert!(build_plan(&q, &r).is_empty());
    let mut run = OrganizeRun::start(OrganizeMode::Move, &q, &r, "s".to_string(), "d".to_string());
    assert!(run.is_finished());
    assert!(drive(&mut run, &|_| false).is_empty());
}

#[test]
fn keys_with_one_label_share_a_bucket() {
    let q = queue(&[("a.png", &['x', 'c']), ("b.png", &['c'])]);
    let r = registry(&[('x', "cats"), ('c', "cats")]);
    let plan = build_plan(&q, &r);
    assert_eq!(plan.len(), 1);
    assert_eq!(plan[0].paths, vec!["a.png", "a.png", "b.png"]);
}

#[test]
fn failed_folder_skips_only_its_bucket() {
    let q = queue(&[("a.png", &['x']), ("b.png", &['y']), ("c.png", &['x'])]);
    let r = registry(&[('x', "cats"), ('y', "dogs")]);
    let mut run = OrganizeRun::start(OrganizeMode::Copy, &q, &r, "s".to_string(), "d".to_string());
    assert_eq!(run.phase, Phase::Prepare);
    let ops = drive(&mut run, &|d| d == "mkdir d/cats");
    assert_eq!(ops, vec!["mkdir d/cats", "mkdir d/dogs", "copy s/b.png d/dogs/b.png"]);
    assert_eq!(run.log, vec!["Error creating d/cats: denied", "b.png copied"]);
}
