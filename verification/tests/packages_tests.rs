use terminal_bridge::packages::{
    get_npm_packages, insert_name, insert_names, standing, Standing,
};

fn names(list: &[&str]) -> Vec<String> {
    list.iter().map(|name| name.to_string()).collect()
}

#[test]
fn standing_matches_string_order() {
    let texts = [
        "", "a", "A", "ab", "abc", "b", "react", "react-dom", "@types/node", "é", "z", "zz",
        "日本", "\u{10348}", "\u{ffff}", "\u{7f}", "\u{80}",
    ];
    for a in texts {
        for b in texts {
            let expected = if a < b {
                Standing::Before
            } else if a == b {
                Standing::Same
            } else {
                Standing::After
            };
            assert_eq!(standing(a, b), expected, "{:?}", (a, b));
        }
    }
}

#[test]
fn standing_exact_values() {
    assert_eq!(standing("react", "react-dom"), Standing::Before);
    assert_eq!(standing("vue", "react"), Standing::After);
    assert_eq!(standing("vue", "vue"), Standing::Same);
    assert_eq!(standing("", ""), Standing::Same);
    assert_eq!(standing("", "a"), Standing::Before);
    assert_eq!(standing("Z", "a"), Standing::Before);
}

#[test]
fn insert_keeps_list_ascending_and_without_duplicates() {
    let mut list = Vec::new();
    for name in ["vue", "react", "axios", "react", "zod", "axios", "@babel/core"] {
        insert_name(&mut list, name);
    }
    assert_eq!(list, vec!["@babel/core", "axios", "react", "vue", "zod"]);
    insert_names(&mut list, &names(&["lodash", "vue", "a"]));
    assert_eq!(list, vec!["@babel/core", "a", "axios", "lodash", "react", "vue", "zod"]);
}

#[test]
fn packages_of_three_sections() {
    let packages = get_npm_packages(
        &names(&["react", "axios"]),
        &names(&["typescript", "vite", "react"]),
        &names(&["react", "zod"]),
    );
    assert_eq!(packages, vec!["axios", "react", "typescript", "vite", "zod"]);
}

#[test]
fn packages_of_empty_sections() {
    assert_eq!(get_npm_packages(&Vec::new(), &Vec::new(), &Vec::new()), Vec::<String>::new());
    assert_eq!(get_npm_packages(&Vec::new(), &names(&["b", "a"]), &Vec::new()), vec!["a", "b"]);
}

#[test]
fn packages_match_dedupe_and_sort() {
    let dependencies = names(&["vue", "é", "Vue", "lodash", "@x/y", ""]);
    let dev = names(&["lodash", "日本", "a", "vue"]);
    let peer = names(&["z", "", "@x/y", "\u{10348}"]);
    let mut expected: Vec<String> = Vec::new();
    for name in dependencies.iter().chain(dev.iter()).chain(peer.iter()) {
        if !expected.contains(name) {
            expected.push(name.clone());
        }
    }
    expected.sort();
    assert_eq!(get_npm_packages(&dependencies, &dev, &peer), expected);
}
