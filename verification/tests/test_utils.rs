use cli_assert::PathExt;
use cli_assert::PurePath;

#[test]
fn _0001() {
    let p = PurePath::parse("/a/b/c/d");
    let s = PurePath::parse("e/f");
    assert_eq!(None, p.rem(&s));
}

#[test]
fn _0002() {
    let p = PurePath::parse("/a/b/c/d");
    let s = PurePath::parse("d/e/f");
    assert_eq!("e/f", p.rem(&s).unwrap().render());
}

#[test]
fn _0003() {
    let p = PurePath::parse("a/b/c/d/e");
    let s = PurePath::parse("d/e/f");
    assert_eq!("f", p.rem(&s).unwrap().render());
}

#[test]
fn _0004() {
    let p = PurePath::parse("a/b/c");
    let s = PurePath::parse("e/f");
    assert_eq!(None, p.rem(&s));
}

#[test]
fn _0005() {
    let p = PurePath::parse("a/b/c");
    let s = PurePath::parse("a/b/c");
    assert_eq!("", p.rem(&s).unwrap().render());
}

#[test]
fn _0006() {
    let p = PurePath::parse("a/b/c");
    let s = PurePath::parse("b/c/d");
    assert_eq!("d", p.rem(&s).unwrap().render());
}

#[test]
fn rem_full_suffix_gives_empty_remainder() {
    let p = PurePath::parse("a/b/c/d");
    let s = PurePath::parse("c/d");
    assert_eq!("", p.rem(&s).unwrap().render());
}

#[test]
fn rem_prefers_largest_overlap() {
    let p = PurePath::parse("a/b/a/b");
    let s = PurePath::parse("a/b/a/b/x");
    assert_eq!("x", p.rem(&s).unwrap().render());
}

#[test]
fn rem_single_component_overlap() {
    let p = PurePath::parse("w/x");
    let s = PurePath::parse("x");
    assert_eq!("", p.rem(&s).unwrap().render());
}

#[test]
fn rem_root_only_overlap_differs_from_relative() {
    let p = PurePath::parse("x/a");
    let s = PurePath::parse("/a/y");
    assert_eq!(None, p.rem(&s));
}

#[test]
fn rem_absolute_against_absolute() {
    let p = PurePath::parse("/a/b");
    let s = PurePath::parse("/a/b/c");
    assert_eq!("c", p.rem(&s).unwrap().render());
}

#[test]
fn parse_drops_repeated_and_trailing_separators() {
    let p = PurePath::parse("a//b/");
    assert_eq!("a/b", p.render());
    assert_eq!(2, p.len());
}

#[test]
fn parse_keeps_dot_components() {
    let p = PurePath::parse("./a/../b");
    assert_eq!("./a/../b", p.render());
    assert_eq!(4, p.len());
}

#[test]
fn parse_and_render_absolute_path() {
    let p = PurePath::parse("/a/b/c");
    assert_eq!("/a/b/c", p.render());
    assert_eq!(4, p.len());
}

#[test]
fn parse_empty_and_root() {
    assert_eq!(0, PurePath::parse("").len());
    assert_eq!("", PurePath::parse("").render());
    assert_eq!(1, PurePath::parse("/").len());
    assert_eq!("/", PurePath::parse("/").render());
}

#[test]
fn parent_of_relative_file() {
    let p = PurePath::parse("tests/test_utils.rs");
    assert_eq!("tests", p.parent().unwrap().render());
}

#[test]
fn parent_of_single_component_is_empty_path() {
    let p = PurePath::parse("file.rs");
    let parent = p.parent().unwrap();
    assert_eq!(0, parent.len());
    assert_eq!("", parent.render());
}

#[test]
fn parent_missing_for_empty_and_root() {
    assert_eq!(None, PurePath::parse("").parent());
    assert_eq!(None, PurePath::parse("/").parent());
}

#[test]
fn parent_of_absolute_file() {
    let p = PurePath::parse("/a/b.rs");
    assert_eq!("/a", p.parent().unwrap().render());
}
