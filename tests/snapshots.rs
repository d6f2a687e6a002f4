use git_third_party::snapshot::{
    archive_args, import_exit_code, tar_args, toplevel_args, toplevel_of, vendor_dir,
};

fn strings(v: &[&str]) -> Vec<String> {
    v.iter().map(|s| s.to_string()).collect()
}

#[test]
fn toplevel_drops_trailing_newline() {
    assert_eq!(toplevel_of("/home/me/repo\n"), "/home/me/repo");
    assert_eq!(toplevel_of("/home/me/repo \t\r\n"), "/home/me/repo");
    assert_eq!(toplevel_args(), strings(&["rev-parse", "--show-toplevel"]));
}

#[test]
fn vendor_dir_under_toplevel() {
    assert_eq!(vendor_dir("/home/me/repo", Some("third_party/lib")), "/home/me/repo/third_party/lib");
    assert_eq!(vendor_dir("/home/me/repo", None), "/home/me/repo");
}

#[test]
fn archive_and_tar_args() {
    assert_eq!(archive_args("/up", "master"), strings(&["-C", "/up", "archive", "--format", "tar", "master"]));
    assert_eq!(tar_args("/home/me/repo/v"), strings(&["-C", "/home/me/repo/v", "-x"]));
}

#[test]
fn import_exit_code_prefers_the_archive() {
    assert_eq!(import_exit_code(128, 0), 128);
    assert_eq!(import_exit_code(128, 2), 128);
    assert_eq!(import_exit_code(0, 2), 2);
    assert_eq!(import_exit_code(0, 0), 0);
}
