use terminal_bridge::files::{
    check_path_exists, fs_get_project_root, importable_entry, is_drive_path,
    is_ignored_directory, is_importable_extension, is_likely_file, passes_check,
    project_markers, relative_import_path, search_start, DirEntry, FileItem, PathCheck,
    PipPackage, SearchStart,
};

#[test]
fn search_starts() {
    assert_eq!(search_start("", false, false), SearchStart::CurrentDirectory);
    assert_eq!(search_start("/unix/path", true, true), SearchStart::CurrentDirectory);
    assert_eq!(search_start("relative/file.ts", true, false), SearchStart::CurrentDirectory);
    assert_eq!(search_start("C:\\proj", true, true), SearchStart::Path);
    assert_eq!(search_start("C:/proj/main.rs", true, false), SearchStart::Parent);
    assert_eq!(search_start("C:\\proj\\src", true, false), SearchStart::Parent);
    assert_eq!(search_start("C:\\proj\\new.rs", false, false), SearchStart::Parent);
    assert_eq!(search_start("C:\\proj\\new", false, false), SearchStart::Path);
    assert_eq!(search_start("C:\\pro.j\\new", false, true), SearchStart::Path);
}

#[test]
fn drive_paths() {
    for path in ["C:/proj", "c:", "Z:\\x", "a:b"] {
        assert!(is_drive_path(path), "{}", path);
    }
    for path in ["", "C", "/C:/x", "1:/x", "é:/x", ":C", "CC:/x", "./C:"] {
        assert!(!is_drive_path(path), "{}", path);
    }
}

#[test]
fn likely_files() {
    for path in ["C:/proj/main.rs", "a.b", ".hidden", "dir/.", "C:/x.y/z.w"] {
        assert!(is_likely_file(path), "{}", path);
    }
    for path in ["C:/proj/src", "", "C:/x.y/z", "a.b/", "dir"] {
        assert!(!is_likely_file(path), "{}", path);
    }
}

#[test]
fn project_root_answer_uses_slashes() {
    assert_eq!(fs_get_project_root("C:\\proj", "C:\\proj\\src"), "C:/proj###C:/proj/src");
    assert_eq!(fs_get_project_root("/proj", "/proj"), "/proj###/proj");
    assert_eq!(fs_get_project_root("", ""), "###");
}

#[test]
fn project_marker_list() {
    assert_eq!(
        project_markers(),
        vec![
            "package.json",
            ".git",
            "tsconfig.json",
            "next.config.js",
            "next.config.ts",
            "vite.config.js",
            "vite.config.ts",
        ]
    );
}

#[test]
fn ignored_directories() {
    for name in [
        "node_modules", ".git", "dist", "build", ".next", "out", ".cache", ".idea", ".vscode",
        ".github", "coverage", ".DS_Store",
    ] {
        assert!(is_ignored_directory(name), "{}", name);
    }
    for name in ["src", "", "Node_modules", "node_modules ", ".gitignore", "output"] {
        assert!(!is_ignored_directory(name), "{}", name);
    }
}

#[test]
fn importable_extensions() {
    for extension in [
        "js", "jsx", "ts", "tsx", "vue", "svelte", "json", "css", "scss", "sass", "less", "md",
        "mdx", "svg", "png", "jpg", "jpeg", "gif", "webp", "woff", "woff2", "ttf", "otf", "eot",
    ] {
        assert!(is_importable_extension(extension), "{}", extension);
    }
    for extension in ["", "rs", "JS", "exe", "js ", "woff3", "html"] {
        assert!(!is_importable_extension(extension), "{}", extension);
    }
}

#[test]
fn import_path_under_root() {
    assert_eq!(relative_import_path("/proj/src/a.ts", "/proj"), "src/a.ts");
    assert_eq!(relative_import_path("/proj//src/a.ts", "/proj"), "src/a.ts");
    assert_eq!(relative_import_path("/proj", "/proj"), "");
    assert_eq!(relative_import_path("C:\\proj\\src\\a.ts", "C:/proj"), "src/a.ts");
    assert_eq!(relative_import_path("/project/a.ts", "/proj"), "ect/a.ts");
}

#[test]
fn import_path_outside_root_drops_shared_components() {
    assert_eq!(relative_import_path("/home/me/other/a.ts", "/home/me/proj"), "other/a.ts");
    assert_eq!(relative_import_path("C:\\work\\lib\\b.js", "C:\\work\\app"), "C:/work/lib/b.js");
    assert_eq!(relative_import_path("C:\\work\\lib\\b.js", "C:/work/app"), "lib/b.js");
    assert_eq!(relative_import_path("/a", "/b"), "a");
    assert_eq!(relative_import_path("x/y", "z"), "x/y");
    assert_eq!(relative_import_path("a/b", "a/b/c"), "");
    assert_eq!(relative_import_path("", "x"), "");
}

#[test]
fn import_path_matches_string_operations() {
    let cases = [
        ("/proj/src/a.ts", "/proj"),
        ("/home/me/other/a.ts", "/home/me/proj"),
        ("C:\\w\\x.js", "C:/w"),
        ("a/b/c", "a/x"),
        ("", ""),
        ("/", "/"),
        ("a//b", "a"),
        ("q", "a/b"),
    ];
    for (path, root) in cases {
        let mut normalized = path.replace('\\', "/");
        if let Some(rest) = normalized.strip_prefix(root) {
            normalized = rest.trim_start_matches('/').to_string();
        } else {
            let root_parts: Vec<&str> = root.split('/').collect();
            let path_parts: Vec<&str> = normalized.split('/').collect();
            let mut common = 0;
            for (i, (a, b)) in root_parts.iter().zip(path_parts.iter()).enumerate() {
                if a == b {
                    common = i + 1;
                } else {
                    break;
                }
            }
            if common > 0 {
                normalized = path_parts[common..].join("/");
            }
        }
        assert_eq!(relative_import_path(path, root), normalized, "{:?}", (path, root));
    }
}

#[test]
fn scan_reports_directories_and_importable_files() {
    assert_eq!(
        importable_entry("/proj/src", true, "", "/proj"),
        Some(DirEntry { path: "src".to_string(), is_dir: true })
    );
    assert_eq!(
        importable_entry("/proj/src/App.tsx", false, "tsx", "/proj"),
        Some(DirEntry { path: "src/App.tsx".to_string(), is_dir: false })
    );
    assert_eq!(importable_entry("/proj/Cargo.lock", false, "lock", "/proj"), None);
    assert_eq!(importable_entry("/proj/Makefile", false, "", "/proj"), None);
}

#[test]
fn path_checks() {
    assert_eq!(check_path_exists(None), Ok(PathCheck::Any));
    assert_eq!(check_path_exists(Some("directory")), Ok(PathCheck::Directory));
    assert_eq!(check_path_exists(Some("file")), Ok(PathCheck::File));
    assert_eq!(check_path_exists(Some("link")), Err("Invalid check type: link".to_string()));
    assert_eq!(check_path_exists(Some("")), Err("Invalid check type: ".to_string()));
    assert_eq!(check_path_exists(Some("File")), Err("Invalid check type: File".to_string()));
}

#[test]
fn check_results() {
    assert!(passes_check(PathCheck::Any, true, false, false));
    assert!(!passes_check(PathCheck::Any, false, true, true));
    assert!(passes_check(PathCheck::Directory, true, true, false));
    assert!(!passes_check(PathCheck::Directory, true, false, true));
    assert!(passes_check(PathCheck::File, true, false, true));
    assert!(!passes_check(PathCheck::File, true, true, false));
    assert!(!passes_check(PathCheck::File, false, false, true));
}

#[test]
fn records_hold_their_fields() {
    let package = PipPackage { name: "requests".to_string(), version: "2.31.0".to_string() };
    assert_eq!(package.clone(), package);
    let leaf = FileItem {
        name: "a.txt".to_string(),
        is_directory: false,
        path: "/d/a.txt".to_string(),
        children: None,
    };
    let tree = FileItem {
        name: "d".to_string(),
        is_directory: true,
        path: "/d".to_string(),
        children: Some(vec![leaf]),
    };
    assert!(tree.is_directory);
    assert_eq!(tree.children.as_ref().map(|c| c.len()), Some(1));
    assert_eq!(tree.children.unwrap()[0].name, "a.txt");
}
