use cargo_code_search::model::{Items, Repo, Repository};
use cargo_code_search::query::create_query;

#[test]
fn query_has_all_parts() {
    let url = create_query(&String::from("serde"), &10);
    assert_eq!(
        url,
        "https://api.github.com/search/code?per_page=10&q=serde \
         +in:file +filename:Cargo +extension:toml +sort:updated-asc"
    );
    assert!(url.contains("serde"));
    assert!(url.contains("10"));
    assert!(url.contains("filename:Cargo"));
    assert!(url.contains("extension:toml"));
}

#[test]
fn query_renders_count_digits() {
    let url = create_query(&String::from("tokio"), &907);
    assert!(url.contains("per_page=907&q=tokio"));
    let url = create_query(&String::from("x"), &1);
    assert!(url.contains("per_page=1&q=x"));
    let url = create_query(&String::from("x"), &4294967295);
    assert!(url.contains("per_page=4294967295&q=x"));
}

fn item(url: &str, desc: &str) -> Items {
    Items {
        repository: Repository {
            html_url: String::from(url),
            description: String::from(desc),
        },
    }
}

#[test]
fn table_of_empty_result_set() {
    let repo = Repo { items: vec![] };
    let expected = format!(
        "{0: <1} │ {1: <50} │ {2: <100}\n{3}\n",
        " ",
        "Name",
        "Description",
        "─".repeat(120)
    );
    assert_eq!(repo.get_table(), expected);
    assert_eq!(repo.get_table().lines().count(), 2);
}

#[test]
fn table_rows_carry_indices_in_order() {
    let repo = Repo {
        items: vec![
            item("https://github.com/a/b", "first"),
            item("https://github.com/c/d", "second"),
            item("https://github.com/e/f", "third"),
        ],
    };
    let table = repo.get_table();
    let lines: Vec<&str> = table.lines().collect();
    assert_eq!(lines.len(), 5);
    assert!(lines[2].starts_with("0 │ https://github.com/a/b"));
    assert!(lines[3].starts_with("1 │ https://github.com/c/d"));
    assert!(lines[4].starts_with("2 │ https://github.com/e/f"));
    let row = format!(
        "{0: <1} │ {1: <50} │ {2: <100}",
        0, "https://github.com/a/b", "first"
    );
    assert_eq!(lines[2], row);
}

#[test]
fn table_rows_match_reference_format() {
    let repo = Repo {
        items: vec![item("https://github.com/a/b", "x"), item("https://github.com/c/d", "")],
    };
    let mut expected = format!(
        "{0: <1} │ {1: <50} │ {2: <100}\n{3}\n",
        " ",
        "Name",
        "Description",
        "─".repeat(120)
    );
    expected += &format!(
        "{0: <1} │ {1: <50} │ {2: <100}\n",
        0, "https://github.com/a/b", "x"
    );
    expected += &format!(
        "{0: <1} │ {1: <50} │ {2: <100}\n",
        1, "https://github.com/c/d", ""
    );
    assert_eq!(repo.get_table(), expected);
}
