use target_dylibs::interpret::{interpret, unique_paths, target_dir, InterpretError};
use target_dylibs::message::{line_spans, BuildMessage};

fn strings(items: &[&str]) -> Vec<String> {
    items.iter().map(|s| s.to_string()).collect()
}

fn message(reason: &str, package: Option<&str>) -> BuildMessage {
    BuildMessage {
        reason: reason.to_string(),
        package_id: package.map(|p| p.to_string()),
        linked_libs: None,
        linked_paths: None,
        executable: None,
        filenames: None,
    }
}

fn executable(package: &str, path: &str) -> BuildMessage {
    let mut m = message("compiler-artifact", Some(package));
    m.executable = Some(path.to_string());
    m
}

fn script(package: &str, libs: Option<&[&str]>, paths: Option<&[&str]>) -> BuildMessage {
    let mut m = message("build-script-executed", Some(package));
    m.linked_libs = libs.map(strings);
    m.linked_paths = paths.map(strings);
    m
}

fn pkg() -> String {
    "app 0.1.0".to_string()
}

#[test]
fn request_count_is_sum_of_linked_libraries() {
    let msgs: Vec<Result<BuildMessage, String>> = vec![
        Ok(script("a", Some(&["x", "y"]), Some(&["/a/lib", "/a/lib", "/a/other"]))),
        Ok(message("compiler-artifact", Some("a"))),
        Ok(executable("app 0.1.0", "/out/bin/app")),
        Ok(script("b", Some(&["z"]), Some(&["/b/lib"]))),
        Ok(script("c", Some(&[]), None)),
        Ok(script("d", None, None)),
    ];
    let r = interpret(&msgs, &pkg()).unwrap();
    assert_eq!(r.libraries.len(), 3);
    assert_eq!(r.libraries[0].name, "x");
    assert_eq!(r.libraries[0].paths, strings(&["/a/lib", "/a/other"]));
    assert_eq!(r.libraries[1].name, "y");
    assert_eq!(r.libraries[1].paths, strings(&["/a/lib", "/a/other"]));
    assert_eq!(r.libraries[2].name, "z");
    assert_eq!(r.libraries[2].paths, strings(&["/b/lib"]));
    assert_eq!(r.target_dir, "/out/bin/deps");
}

#[test]
fn same_name_in_two_packages_is_kept_twice() {
    let msgs: Vec<Result<BuildMessage, String>> = vec![
        Ok(script("a", Some(&["x"]), Some(&["/a"]))),
        Ok(script("b", Some(&["x"]), Some(&["/b"]))),
        Ok(executable("app 0.1.0", "/out/app")),
    ];
    let r = interpret(&msgs, &pkg()).unwrap();
    assert_eq!(r.libraries.len(), 2);
    assert_eq!(r.libraries[0].paths, strings(&["/a"]));
    assert_eq!(r.libraries[1].paths, strings(&["/b"]));
}

#[test]
fn missing_search_dirs_fail() {
    let msgs: Vec<Result<BuildMessage, String>> = vec![
        Ok(executable("app 0.1.0", "/out/bin/app")),
        Ok(script("a", Some(&["x"]), None)),
    ];
    assert_eq!(
        interpret(&msgs, &pkg()),
        Err(InterpretError::MissingPaths { package: "a".to_string() })
    );
}

#[test]
fn empty_search_dirs_fail() {
    let msgs: Vec<Result<BuildMessage, String>> = vec![
        Ok(script("a", Some(&["x"]), Some(&[]))),
        Ok(executable("app 0.1.0", "/out/bin/app")),
    ];
    assert_eq!(
        interpret(&msgs, &pkg()),
        Err(InterpretError::NoPaths { package: "a".to_string() })
    );
}

#[test]
fn malformed_record_names_its_line() {
    let msgs: Vec<Result<BuildMessage, String>> = vec![
        Ok(executable("app 0.1.0", "/out/bin/app")),
        Err("expected value".to_string()),
        Ok(script("a", Some(&["x"]), None)),
    ];
    assert_eq!(
        interpret(&msgs, &pkg()),
        Err(InterpretError::Malformed { line: 2, message: "expected value".to_string() })
    );
}

#[test]
fn missing_artifact_fails() {
    let msgs: Vec<Result<BuildMessage, String>> = vec![
        Ok(executable("other 0.1.0", "/out/bin/other")),
        Ok(script("a", Some(&["x"]), Some(&["/a"]))),
    ];
    assert_eq!(interpret(&msgs, &pkg()), Err(InterpretError::NoArtifact { package: pkg() }));
}

#[test]
fn executable_gives_deps_beside_it() {
    let msgs: Vec<Result<BuildMessage, String>> = vec![Ok(executable("app 0.1.0", "/out/bin/app"))];
    let r = interpret(&msgs, &pkg()).unwrap();
    assert_eq!(r.target_dir, "/out/bin/deps");
    assert!(r.libraries.is_empty());
}

#[test]
fn library_archive_gives_deps_beside_it() {
    let mut m = message("compiler-artifact", Some("app 0.1.0"));
    m.filenames = Some(strings(&["/out/libfoo.a", "/out/libfoo.rlib"]));
    let r = interpret(&vec![Ok(m)], &pkg()).unwrap();
    assert_eq!(r.target_dir, "/out/deps");
}

#[test]
fn first_archive_among_files_is_used() {
    let mut m = message("compiler-artifact", Some("app 0.1.0"));
    m.filenames = Some(strings(&["/a/libfoo.a", "/b/libfoo.rlib", "/c/libbar.rlib"]));
    assert_eq!(target_dir(&m, &pkg()), Ok("/b/deps".to_string()));
}

#[test]
fn artifact_without_files_fails() {
    let m = message("compiler-artifact", Some("app 0.1.0"));
    assert_eq!(
        interpret(&vec![Ok(m)], &pkg()),
        Err(InterpretError::MissingFilenames { package: pkg() })
    );
}

#[test]
fn artifact_without_archive_fails() {
    let mut m = message("compiler-artifact", Some("app 0.1.0"));
    m.filenames = Some(strings(&["/out/libfoo.so", "/out/libfoo.d"]));
    assert_eq!(
        interpret(&vec![Ok(m)], &pkg()),
        Err(InterpretError::MissingRlib { package: pkg() })
    );
}

#[test]
fn artifact_at_root_has_no_parent() {
    let m = executable("app 0.1.0", "/");
    assert_eq!(interpret(&vec![Ok(m)], &pkg()), Err(InterpretError::NoParent { package: pkg() }));
}

#[test]
fn first_matching_artifact_wins() {
    let msgs: Vec<Result<BuildMessage, String>> = vec![
        Ok(executable("app 0.1.0", "/first/app")),
        Ok(executable("app 0.1.0", "/second/app")),
    ];
    assert_eq!(interpret(&msgs, &pkg()).unwrap().target_dir, "/first/deps");
}

#[test]
fn script_without_package_is_skipped() {
    let mut s = script("a", Some(&["x"]), None);
    s.package_id = None;
    let msgs: Vec<Result<BuildMessage, String>> = vec![Ok(s), Ok(executable("app 0.1.0", "/o/app"))];
    assert!(interpret(&msgs, &pkg()).unwrap().libraries.is_empty());
}

#[test]
fn unique_paths_keep_first_occurrence_order() {
    let v = strings(&["/b", "/a", "/b", "/c", "/a"]);
    assert_eq!(unique_paths(&v), strings(&["/b", "/a", "/c"]));
    assert!(unique_paths(&Vec::new()).is_empty());
}


#[test]
fn stream_is_split_into_lines() {
    let text = b"{\"a\":1}\n{\"b\":2}\r\n\nlast";
    assert_eq!(line_spans(text), vec![(0, 7), (8, 15), (17, 17), (18, 22)]);
}

#[test]
fn final_line_feed_adds_no_line() {
    assert_eq!(line_spans(b"one\ntwo\n"), vec![(0, 3), (4, 7)]);
    assert_eq!(line_spans(b""), vec![]);
    assert_eq!(line_spans(b"\n"), vec![(0, 0)]);
}

#[test]
fn lone_carriage_return_is_kept() {
    assert_eq!(line_spans(b"a\rb\r"), vec![(0, 4)]);
    assert_eq!(line_spans(b"\r\n"), vec![(0, 0)]);
}

#[test]
fn spans_match_std_lines() {
    let text = "x\r\ny\n\r\nz\r";
    let by_span: Vec<&str> = line_spans(text.as_bytes()).into_iter().map(|(a, b)| &text[a..b]).collect();
    let by_std: Vec<&str> = text.lines().collect();
    assert_eq!(by_span, by_std);
}
