use git_third_party::pipeline::{Action, CherryPick, Pipeline, Stage};

fn strings(v: &[&str]) -> Vec<String> {
    v.iter().map(|s| s.to_string()).collect()
}

fn request(src_directory: Option<&str>, dst_directory: Option<&str>, trailers: &[&str]) -> CherryPick {
    CherryPick {
        src_repo: "/up".to_string(),
        revisions: "v1..v2".to_string(),
        from_root: false,
        single_commit: false,
        src_directory: src_directory.map(|s| s.to_string()),
        dst_directory: dst_directory.map(|s| s.to_string()),
        trailers: strings(trailers),
    }
}

const LISTING: &str = "0001-a.patch\n0002-b.patch\n0003-c.patch\n";

fn three() -> Vec<String> {
    strings(&["/up/0001-a.patch", "/up/0002-b.patch", "/up/0003-c.patch"])
}

#[test]
fn scoped_pick_applies_under_destination() {
    let mut p = Pipeline::new(request(Some("vendor/"), Some("third_party/vendor"), &[]));
    assert_eq!(
        p.start(),
        Action::Git(strings(&["-C", "/up", "format-patch", "v1..v2", "--", "vendor/"]))
    );
    let mut am = strings(&["am", "--directory", "third_party/vendor", "-p2"]);
    am.extend(three());
    assert_eq!(p.step(0, LISTING), Action::Git(am));
    assert_eq!(p.stage, Stage::Applying);
    assert_eq!(p.step(0, ""), Action::Remove("/up/0001-a.patch".to_string()));
    assert_eq!(p.step(0, ""), Action::Remove("/up/0002-b.patch".to_string()));
    assert_eq!(p.step(0, ""), Action::Remove("/up/0003-c.patch".to_string()));
    assert_eq!(p.step(0, ""), Action::Exit(0));
    assert_eq!(p.step(0, ""), Action::Exit(0));
}

#[test]
fn failed_apply_still_removes_every_patch() {
    let mut p = Pipeline::new(request(None, None, &[]));
    let mut am = strings(&["am"]);
    am.extend(three());
    assert_eq!(p.step(0, LISTING), Action::Git(am));
    assert_eq!(p.step(1, ""), Action::Remove("/up/0001-a.patch".to_string()));
    assert_eq!(p.step(0, ""), Action::Remove("/up/0002-b.patch".to_string()));
    assert_eq!(p.step(1, ""), Action::Remove("/up/0003-c.patch".to_string()));
    assert_eq!(p.step(0, ""), Action::Exit(1));
}

#[test]
fn trailers_annotate_before_apply() {
    let mut p = Pipeline::new(request(None, None, &["Signed-off-by", "Name <email>", "Signed-off-by", "Name <email>"]));
    let mut it = strings(&[
        "interpret-trailers",
        "--in-place",
        "--trailer",
        "Signed-off-by=Name <email>",
        "--trailer",
        "Signed-off-by=Name <email>",
    ]);
    it.extend(three());
    assert_eq!(p.step(0, LISTING), Action::Git(it));
    assert_eq!(p.stage, Stage::Annotating);
    let mut am = strings(&["am"]);
    am.extend(three());
    assert_eq!(p.step(0, ""), Action::Git(am));
}

#[test]
fn failed_annotation_removes_every_patch() {
    let mut p = Pipeline::new(request(None, None, &["Acked-by", "A"]));
    assert!(matches!(p.step(0, LISTING), Action::Git(_)));
    assert_eq!(p.step(3, ""), Action::Remove("/up/0001-a.patch".to_string()));
    assert_eq!(p.step(0, ""), Action::Remove("/up/0002-b.patch".to_string()));
    assert_eq!(p.step(0, ""), Action::Remove("/up/0003-c.patch".to_string()));
    assert_eq!(p.step(0, ""), Action::Exit(3));
}

#[test]
fn empty_range_is_no_error() {
    let mut p = Pipeline::new(request(None, None, &["Acked-by", "A"]));
    assert_eq!(p.step(0, ""), Action::Exit(0));
    assert!(p.patches.is_empty());
}

#[test]
fn failed_extraction_exits_with_its_code() {
    let mut p = Pipeline::new(request(None, None, &[]));
    assert_eq!(p.step(128, "fatal: bad revision"), Action::Exit(128));
    assert_eq!(p.stage, Stage::Finished { code: 128 });
}

#[test]
fn single_commit_yields_one_patch() {
    let mut req = request(None, None, &[]);
    req.single_commit = true;
    req.revisions = "HEAD~5..HEAD".to_string();
    let mut p = Pipeline::new(req);
    assert_eq!(
        p.start(),
        Action::Git(strings(&["-C", "/up", "format-patch", "-1", "HEAD~5..HEAD"]))
    );
    assert_eq!(p.step(0, "0001-tip.patch\n"), Action::Git(strings(&["am", "/up/0001-tip.patch"])));
    assert_eq!(p.patches.len(), 1);
}

#[test]
fn full_clone_extracts_from_root() {
    let mut p = Pipeline::new(CherryPick::full_clone("/up", "main"));
    assert_eq!(p.start(), Action::Git(strings(&["-C", "/up", "format-patch", "--root", "main"])));
    assert_eq!(p.step(0, "0001-init.patch\n"), Action::Git(strings(&["am", "/up/0001-init.patch"])));
}
