use git_third_party::apply::{am_args, push_decimal};
use git_third_party::path::{component_count_of, join, strip_depth};

fn strings(v: &[&str]) -> Vec<String> {
    v.iter().map(|s| s.to_string()).collect()
}

#[test]
fn strip_depth_without_scope_is_one() {
    assert_eq!(strip_depth(None), 1);
}

#[test]
fn strip_depth_counts_scope_components() {
    assert_eq!(strip_depth(Some("a/b")), 3);
    assert_eq!(strip_depth(Some("a")), 2);
    assert_eq!(strip_depth(Some("vendor/")), 2);
}

#[test]
fn strip_depth_is_the_same_for_the_same_scope() {
    assert_eq!(strip_depth(Some("x/y/z")), strip_depth(Some("x/y/z")));
    assert_eq!(strip_depth(Some("x/y/z")), 4);
}

#[test]
fn component_count_follows_unix_paths() {
    assert_eq!(component_count_of(""), 0);
    assert_eq!(component_count_of("a//b/"), 2);
    assert_eq!(component_count_of("./a"), 2);
    assert_eq!(component_count_of("a/./b"), 2);
    assert_eq!(component_count_of("a/.."), 2);
    assert_eq!(component_count_of("/"), 1);
    assert_eq!(component_count_of("/usr/lib"), 3);
    assert_eq!(component_count_of("."), 1);
}

#[test]
fn join_adds_one_separator() {
    assert_eq!(join("src", "0001-a.patch"), "src/0001-a.patch");
    assert_eq!(join("src/", "0001-a.patch"), "src/0001-a.patch");
    assert_eq!(join("", "0001-a.patch"), "0001-a.patch");
}

#[test]
fn join_keeps_an_absolute_path() {
    assert_eq!(join("src", "/tmp/p"), "/tmp/p");
}

#[test]
fn decimal_numerals() {
    for (n, text) in [(0usize, "0"), (7, "7"), (10, "10"), (123, "123"), (9001, "9001")] {
        let mut s = String::from("-p");
        push_decimal(&mut s, n);
        assert_eq!(s, format!("-p{}", text));
    }
    let mut s = String::new();
    push_decimal(&mut s, usize::MAX);
    assert_eq!(s, usize::MAX.to_string());
}

#[test]
fn am_args_with_directory_and_depth() {
    let patches = strings(&["/s/0001-a.patch", "/s/0002-b.patch"]);
    assert_eq!(
        am_args(Some("third_party/vendor"), Some(2), &patches),
        strings(&["am", "--directory", "third_party/vendor", "-p2", "/s/0001-a.patch", "/s/0002-b.patch"])
    );
}

#[test]
fn am_args_plain() {
    let patches = strings(&["x.patch", "y.patch", "z.patch"]);
    assert_eq!(am_args(None, None, &patches), strings(&["am", "x.patch", "y.patch", "z.patch"]));
    assert_eq!(am_args(None, Some(12), &Vec::new()), strings(&["am", "-p12"]));
}
