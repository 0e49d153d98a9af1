use tsync::decimal::{i32_string, u32_string};
use tsync::listing::{parse_sync_list, read_dir_recursively, read_selectively, ListedPath};
use tsync::paths::{
    join, normalize_separators, parent_dir, quote_remote, strip_prefix, with_extension,
    PathExtensions,
};
use tsync::text::{count_lines, split_lines};

fn strings(v: &[&str]) -> Vec<String> {
    v.iter().map(|s| s.to_string()).collect()
}

#[test]
fn join_resolves_relative_and_absolute_paths() {
    assert_eq!(join("src", "a/b.mp3"), "src/a/b.mp3");
    assert_eq!(join("src/", "a.mp3"), "src/a.mp3");
    assert_eq!(join("", "a.mp3"), "a.mp3");
    assert_eq!(join("src", "/abs/a.mp3"), "/abs/a.mp3");
}

#[test]
fn with_extension_replaces_or_appends() {
    assert_eq!(with_extension("track.flac", "opus"), "track.opus");
    assert_eq!(with_extension("a/b/track.flac", "opus"), "a/b/track.opus");
    assert_eq!(with_extension("dir.d/track", "opus"), "dir.d/track.opus");
    assert_eq!(with_extension("track.", "opus"), "track.opus");
    assert_eq!(with_extension(".bashrc", "opus"), ".bashrc.opus");
}

#[test]
fn strip_prefix_respects_component_boundaries() {
    assert_eq!(strip_prefix("src/a/b.mp3", "src"), Some("a/b.mp3".to_string()));
    assert_eq!(strip_prefix("src/a.mp3", "src/"), Some("a.mp3".to_string()));
    assert_eq!(strip_prefix("src", "src"), Some("".to_string()));
    assert_eq!(strip_prefix("srcdir/a.mp3", "src"), None);
    assert_eq!(strip_prefix("other/a.mp3", "src"), None);
    assert_eq!(strip_prefix("x", ""), Some("x".to_string()));
}

#[test]
fn parent_dir_walks_up_one_component() {
    assert_eq!(parent_dir("a/b/c.mp3"), Some("a/b".to_string()));
    assert_eq!(parent_dir("c.mp3"), Some("".to_string()));
    assert_eq!(parent_dir("/c.mp3"), Some("/".to_string()));
    assert_eq!(parent_dir("/"), None);
    assert_eq!(parent_dir(""), None);
}

#[test]
fn file_names_and_extensions() {
    assert_eq!("a/b/track.flac".to_string().get_file_name(), "track.flac");
    assert_eq!("track.flac".to_string().get_file_name(), "track.flac");
    assert_eq!("a/b/track.flac".to_string().get_file_ext(), "flac");
    assert_eq!("track.".to_string().get_file_ext(), "");
    assert_eq!(".bashrc".to_string().get_file_ext(), "");
    assert_eq!("noext".to_string().get_file_ext(), "");
    assert_eq!("a.b/noext".to_string().get_file_ext(), "");
}

#[test]
fn extras_are_recognized_case_insensitively() {
    assert!("a/cover.jpg".to_string().is_extra());
    assert!("a/Cover.JPG".to_string().is_extra());
    assert!("FRONT.PNG".to_string().is_extra());
    assert!("b/folder.png".to_string().is_extra());
    assert!(!"a/cover.jpeg".to_string().is_extra());
    assert!(!"a/covers.jpg".to_string().is_extra());
    assert!(!"a/booklet.png".to_string().is_extra());
}

#[test]
fn separators_are_normalized_and_quoted_for_the_bridge() {
    assert_eq!(normalize_separators("Music\\CD 1\\a.mp3"), "Music/CD 1/a.mp3");
    assert_eq!(quote_remote("My Music\\CD"), "\"My Music/CD\"");
    assert_eq!(quote_remote("plain"), "\"plain\"");
}

#[test]
fn lines_split_like_the_line_reader() {
    assert_eq!(split_lines(""), Vec::<String>::new());
    assert_eq!(split_lines("a\nb\nc"), strings(&["a", "b", "c"]));
    assert_eq!(split_lines("a\nb\n"), strings(&["a", "b"]));
    assert_eq!(split_lines("a\r\nb\r\n"), strings(&["a", "b"]));
    assert_eq!(split_lines("a\n\nb"), strings(&["a", "", "b"]));
}

#[test]
fn line_counting_matches_the_device_listing() {
    assert_eq!(count_lines(""), 0);
    assert_eq!(count_lines("x"), 1);
    assert_eq!(count_lines("List of devices attached\n\n"), 2);
    assert_eq!(count_lines("List of devices attached\nserial\tdevice\n\n"), 3);
}

#[test]
fn sync_list_lines_are_filtered_and_resolved() {
    let contents = "ESAI\n# a comment\n\n/abs/path\r\nVarious Artists/Album X";
    let parsed = parse_sync_list("src", contents);
    assert_eq!(
        parsed,
        strings(&["src/ESAI", "/abs/path", "src/Various Artists/Album X"])
    );
}

#[test]
fn empty_sync_list_selects_nothing() {
    assert_eq!(parse_sync_list("src", ""), Vec::<String>::new());
    assert_eq!(parse_sync_list("src", "# only\n# comments\n"), Vec::<String>::new());
}

#[test]
fn directory_filter_keeps_matching_extensions() {
    let files = strings(&["a/one.mp3", "a/two.txt", "a/three.flac", "a/noext"]);
    let exts = Some(strings(&["mp3", "flac"]));
    assert_eq!(
        read_dir_recursively(&files, &exts),
        strings(&["a/one.mp3", "a/three.flac"])
    );
    // Without a list every file that has an extension is kept.
    assert_eq!(
        read_dir_recursively(&files, &None),
        strings(&["a/one.mp3", "a/two.txt", "a/three.flac"])
    );
}

#[test]
fn sync_list_restricts_the_run_to_listed_paths() {
    // The listed album holds three eligible files; everything outside
    // the listed paths is never handed in, so never considered.
    let entries = vec![ListedPath {
        path: "src/Various Artists/Album X".to_string(),
        present: true,
        is_dir: true,
        files: strings(&[
            "src/Various Artists/Album X/01.mp3",
            "src/Various Artists/Album X/02.mp3",
            "src/Various Artists/Album X/03.flac",
            "src/Various Artists/Album X/cover.txt",
        ]),
    }];
    let exts = Some(strings(&["mp3", "flac"]));
    let picked = read_selectively(&entries, &exts).unwrap();
    assert_eq!(
        picked,
        strings(&[
            "src/Various Artists/Album X/01.mp3",
            "src/Various Artists/Album X/02.mp3",
            "src/Various Artists/Album X/03.flac",
        ])
    );
}

#[test]
fn missing_sync_list_path_fails_with_its_name() {
    let entries = vec![
        ListedPath {
            path: "src/here".to_string(),
            present: true,
            is_dir: true,
            files: vec![],
        },
        ListedPath {
            path: "src/not-there".to_string(),
            present: false,
            is_dir: false,
            files: vec![],
        },
    ];
    let e = read_selectively(&entries, &None).unwrap_err();
    assert_eq!(e.message, "File does not exist");
    assert_eq!(e.context.as_deref(), Some("src/not-there"));
}

#[test]
fn single_file_entries_pass_the_filter_directly() {
    let entries = vec![
        ListedPath {
            path: "src/a.mp3".to_string(),
            present: true,
            is_dir: false,
            files: vec![],
        },
        ListedPath {
            path: "src/b.txt".to_string(),
            present: true,
            is_dir: false,
            files: vec![],
        },
    ];
    let exts = Some(strings(&["mp3"]));
    assert_eq!(read_selectively(&entries, &exts).unwrap(), strings(&["src/a.mp3"]));
}

#[test]
fn decimal_renderings_are_exact() {
    assert_eq!(u32_string(0), "0");
    assert_eq!(u32_string(7), "7");
    assert_eq!(u32_string(128), "128");
    assert_eq!(u32_string(4294967295), "4294967295");
    assert_eq!(i32_string(0), "0");
    assert_eq!(i32_string(-1), "-1");
    assert_eq!(i32_string(i32::MIN), "-2147483648");
    assert_eq!(i32_string(255), "255");
}
