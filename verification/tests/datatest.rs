//! The expansion engine end to end: regular tests pass through, files
//! declarations expand over a simulated file tree, data declarations
//! expand over in-memory documents.
use std::collections::BTreeMap;

use datatest::data::describe_test;
use datatest::runner::{find_matches, render_files_test};
use datatest::{DataTestCaseDesc, FileCase, FilesTestDesc};

/// The simulated `tests/test-cases` tree: each regular file with its text.
fn test_case_tree() -> Vec<(String, String)> {
    vec![
        ("tests/test-cases/case-01.input.txt".to_string(), "Kylie".to_string()),
        ("tests/test-cases/case-01.output.txt".to_string(), "Hello, Kylie!".to_string()),
        ("tests/test-cases/case-02.input.txt".to_string(), "World".to_string()),
        ("tests/test-cases/case-02.output.txt".to_string(), "Hello, World!".to_string()),
        ("tests/test-cases/case-03.input.txt".to_string(), "Kylie".to_string()),
        ("tests/test-cases/case-03.output.txt".to_string(), "Hello, Kylie!".to_string()),
    ]
}

fn content_of(tree: &[(String, String)], path: &str) -> String {
    for (p, text) in tree {
        if p == path {
            return text.clone();
        }
    }
    panic!("cannot read test input at '{}'", path);
}

fn files_desc(name: &str, params: &[&str], pattern: usize) -> FilesTestDesc {
    FilesTestDesc {
        name: name.to_string(),
        ignore: false,
        root: "tests/test-cases".to_string(),
        params: params.iter().map(|p| p.to_string()).collect(),
        pattern,
    }
}

/// Expand a files declaration over the simulated tree, with an optional
/// ignore predicate, and return the cases.
fn expand_files(desc: &FilesTestDesc, ignore: Option<fn(&str) -> bool>) -> Vec<FileCase> {
    let tree = test_case_tree();
    let scanned: Vec<String> = tree.iter().map(|(p, _)| p.clone()).collect();
    let matched = find_matches(&desc.root, &desc.params[desc.pattern], &scanned);
    let marks: Vec<bool> = matched
        .iter()
        .map(|p| ignore.map_or(false, |pred| pred(p)))
        .collect();
    render_files_test(desc, &matched, &marks).expect("no test cases found")
}

#[test]
fn datatest_regular_test() {
    println!("regular tests also work!");
}

#[test]
fn datatest_regular_test_result() -> Result<(), Box<dyn std::error::Error>> {
    println!("regular tests also work!");
    Ok(())
}

#[test]
fn datatest_stable_regular_test() {
    println!("regular tests also work!");
}

#[test]
fn datatest_stable_regular_test_result() -> Result<(), Box<dyn std::error::Error>> {
    println!("regular tests also work!");
    Ok(())
}

fn uses_symbolic_files(path: &str) -> bool {
    path.ends_with("case-03.input.txt")
}

fn is_ignore(path: &str) -> bool {
    path.ends_with("case-02.input.txt")
}

#[test]
fn files_test_strings() {
    let desc = files_desc(
        "tests::files_test_strings",
        &[r"^(.*)\.input\.txt", r"${1}.output.txt"],
        0,
    );
    let tree = test_case_tree();
    let cases = expand_files(&desc, Some(uses_symbolic_files));
    assert_eq!(cases.len(), 3);
    for case in &cases {
        if case.ignore {
            continue;
        }
        let input = content_of(&tree, &case.paths[0]);
        let output = content_of(&tree, &case.paths[1]);
        assert_eq!(format!("Hello, {}!", input), output);
    }
}

#[test]
fn symbolic_files_test_strings() {
    let desc = files_desc(
        "tests::symbolic_files_test_strings",
        &[r"^(.*)\.input\.txt", r"${1}.output.txt"],
        0,
    );
    let tree = test_case_tree();
    let cases = expand_files(&desc, None);
    assert_eq!(cases.len(), 3);
    for case in &cases {
        let input = content_of(&tree, &case.paths[0]);
        let output = content_of(&tree, &case.paths[1]);
        assert_eq!(format!("Hello, {}!", input), output);
    }
}

#[test]
fn files_test_paths() {
    let desc = files_desc(
        "tests::files_test_paths",
        &[r"^(.*)\.input\.txt", r"${1}.output.txt"],
        0,
    );
    let cases = expand_files(&desc, None);
    for case in &cases {
        let input = case.paths[0].clone();
        let output = case.paths[1].clone();
        // Check output path is indeed input path with `input` => `output`
        assert_eq!(input.replace("input", "output"), output);
    }
}

#[test]
fn files_test_slices() {
    let desc = files_desc(
        "tests::files_test_slices",
        &[r"^(.*)\.input\.txt", r"${1}.output.txt"],
        0,
    );
    let tree = test_case_tree();
    let cases = expand_files(&desc, None);
    for case in &cases {
        let input = content_of(&tree, &case.paths[0]).into_bytes();
        let output = content_of(&tree, &case.paths[1]).into_bytes();
        let mut actual = b"Hello, ".to_vec();
        actual.extend(&input);
        actual.push(b'!');
        assert_eq!(actual, output);
    }
}

#[test]
fn files_test_ignore() {
    let desc = files_desc("tests::files_test_ignore", &[r"^(.*)\.input\.txt"], 0);
    let tree = test_case_tree();
    let cases = expand_files(&desc, Some(is_ignore));
    assert_eq!(cases.len(), 3);
    for case in &cases {
        if case.ignore {
            continue;
        }
        let input = content_of(&tree, &case.paths[0]);
        assert_eq!(input, "Kylie");
    }
}

#[test]
fn simple_test() {
    let palindrome = "never odd or even".replace(' ', "");
    let reversed = palindrome.chars().rev().collect::<String>();

    assert_eq!(palindrome, reversed)
}

#[test]
#[should_panic]
fn simple_test_panics() {
    panic!("panicking test!")
}

#[test]
#[should_panic(expected = "panicking test!")]
fn simple_test_panics_message() {
    panic!("panicking test!")
}

const GREETER_YAML: &str = "- {name: Bob, expected: \"Hi, Bob!\"}\n- {name: Amy, expected: \"Hi, Amy!\"}";

/// The standard data route for a greeter document: deserialize, then zip
/// the elements with the recovered positions. `named` selects whether the
/// payloads self-describe (as a type with a display string would).
fn greeter_cases(source: &str, named: bool) -> Vec<DataTestCaseDesc<(String, String)>> {
    let elements: Vec<BTreeMap<String, String>> =
        serde_yaml::from_str(source).expect("cannot deserialize test cases");
    let pairs: Vec<(String, String)> = elements
        .iter()
        .map(|m| (m["name"].clone(), m["expected"].clone()))
        .collect();
    let names: Vec<Option<String>> = pairs
        .iter()
        .map(|(name, _)| if named { Some(name.clone()) } else { None })
        .collect();
    describe_test(source, pairs, &names).expect("no test cases were found!")
}

#[test]
fn nested_data_test_line_only() {
    let cases = greeter_cases(GREETER_YAML, false);
    assert_eq!(cases.len(), 2);
    for case in &cases {
        let (name, expected) = &case.case;
        assert_eq!(*expected, format!("Hi, {}!", name));
    }
}

#[test]
fn mod_data_test_line_only() {
    let cases = greeter_cases(GREETER_YAML, false);
    for case in &cases {
        assert!(case.name.is_none());
        let (name, expected) = &case.case;
        assert_eq!(*expected, format!("Hi, {}!", name));
    }
}

#[test]
fn data_test_take_owned() {
    let cases = greeter_cases(GREETER_YAML, false);
    for case in cases {
        let (mut name, mut expected) = case.case;
        expected += "boo!";
        name += "!boo";
        assert_eq!(expected, format!("Hi, {}!", name));
    }
}

#[test]
fn data_test_name_and_line() {
    let cases = greeter_cases(GREETER_YAML, true);
    assert_eq!(cases.len(), 2);
    assert_eq!(cases[0].name.as_deref(), Some("Bob"));
    assert_eq!(cases[1].name.as_deref(), Some("Amy"));
    for case in &cases {
        let (name, expected) = &case.case;
        assert_eq!(*expected, format!("Hi, {}!", name));
    }
}

fn string_cases(source: &str) -> Vec<DataTestCaseDesc<String>> {
    let elements: Vec<String> =
        serde_yaml::from_str(source).expect("cannot deserialize test cases");
    let names: Vec<Option<String>> = elements.iter().map(|s| Some(s.clone())).collect();
    describe_test(source, elements, &names).expect("no test cases were found!")
}

#[test]
fn data_test_string() {
    for case in string_cases("- booboo\n- abab") {
        let data = case.case;
        let half = data.len() / 2;
        assert_eq!(data[0..half], data[half..]);
    }
}

#[test]
fn data_test_yaml() {
    for case in string_cases("- aa\n- deedee") {
        let data = case.case;
        let half = data.len() / 2;
        assert_eq!(data[0..half], data[half..]);
    }
}

struct StringTestCase {
    input: String,
    output: String,
}

fn load_test_cases(input: &str) -> Vec<DataTestCaseDesc<StringTestCase>> {
    let lines = input.lines().collect::<Vec<_>>();
    lines
        .chunks(2)
        .enumerate()
        .map(|(idx, line)| DataTestCaseDesc {
            case: StringTestCase {
                input: line[0].to_string(),
                output: line[1].to_string(),
            },
            name: Some(line[0].to_string()),
            location: format!("line {}", idx * 2),
        })
        .collect()
}

#[test]
fn data_test_custom() {
    let cases = load_test_cases("World\nHello, World!\nBob\nHello, Bob!");
    assert_eq!(cases.len(), 2);
    for case in cases {
        let data = case.case;
        assert_eq!(data.output, format!("Hello, {}!", data.input));
    }
}

#[test]
fn files_testsome_unicode_privet() {
    let desc = FilesTestDesc {
        name: "unicode::files_testsome_unicode_привет".to_string(),
        ignore: false,
        root: "tests/test-cases".to_string(),
        params: vec![r"^(.*)\.input\.txt".to_string(), r"${1}.output.txt".to_string()],
        pattern: 0,
    };
    let tree = test_case_tree();
    let cases = expand_files(&desc, None);
    for case in &cases {
        assert!(case
            .name
            .starts_with("files_testsome_unicode_привет::"));
        let input = content_of(&tree, &case.paths[0]);
        let output = content_of(&tree, &case.paths[1]);
        assert_eq!(format!("Hello, {}!", input), output);
    }
}

#[test]
fn data_test_with_some_unicode_privet() {
    let cases = greeter_cases(GREETER_YAML, true);
    for case in &cases {
        let (name, expected) = &case.case;
        assert_eq!(*expected, format!("Hi, {}!", name));
    }
}
