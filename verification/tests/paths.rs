use power_assert::sandbox::resolve_path_in_sandbox;

#[test]
fn test_relative_path_to_sandbox_path() {
    let input = "examples/bowling.test.mjs".to_string();
    let cwd = "/Users/takuto/src/github.com/twada/power-assert-monorepo/packages/swc-plugin-power-assert".to_string();
    assert_eq!(resolve_path_in_sandbox(&input, &cwd), "/cwd/examples/bowling.test.mjs");
}

#[test]
fn test_absolute_path_to_sandbox_path() {
    let input = "/Users/takuto/src/github.com/twada/power-assert-monorepo/packages/swc-plugin-power-assert/examples/bowling.test.mjs".to_string();
    let cwd = "/Users/takuto/src/github.com/twada/power-assert-monorepo/packages/swc-plugin-power-assert".to_string();
    assert_eq!(resolve_path_in_sandbox(&input, &cwd), "/cwd/examples/bowling.test.mjs");
}

#[test]
fn test_file_url_to_sandbox_path() {
    let input = "file:///Users/takuto/src/github.com/twada/power-assert-monorepo/packages/swc-plugin-power-assert/examples/bowling.test.mjs".to_string();
    let cwd = "/Users/takuto/src/github.com/twada/power-assert-monorepo/packages/swc-plugin-power-assert".to_string();
    assert_eq!(resolve_path_in_sandbox(&input, &cwd), "/cwd/examples/bowling.test.mjs");
}

#[test]
fn test_utf16_and_utf8_length() {
    let input = "かxに";
    let mut iter = input.chars();
    let first_char = iter.next().unwrap();
    assert_eq!(first_char.len_utf16(), 1);
    assert_eq!(first_char.len_utf8(), 3);
    let second_char = iter.next().unwrap();
    assert_eq!(second_char.len_utf16(), 1);
    assert_eq!(second_char.len_utf8(), 1);
    let third_char = iter.next().unwrap();
    assert_eq!(third_char.len_utf16(), 1);
    assert_eq!(third_char.len_utf8(), 3);
}

#[test]
fn test_scheme_only_prefix_is_stripped_everywhere() {
    let input = "file://a/file://b".to_string();
    let cwd = "/nowhere".to_string();
    assert_eq!(resolve_path_in_sandbox(&input, &cwd), "/cwd/a/b");
}

#[test]
fn test_cwd_equal_to_filename() {
    let input = "/work/project".to_string();
    let cwd = "/work/project".to_string();
    assert_eq!(resolve_path_in_sandbox(&input, &cwd), "/cwd");
}
