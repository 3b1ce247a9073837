use db::rows::{collect_rows, first_row};
use db::types::{DBResult, NOT_FOUND};

#[derive(Debug, PartialEq)]
struct Person {
    id: i32,
    name: String,
}

impl From<(i32, &str)> for Person {
    fn from(row: (i32, &str)) -> Self {
        Person { id: row.0, name: row.1.to_uppercase() }
    }
}

fn people() -> Vec<(i32, &'static str)> {
    vec![(3, "ada"), (1, "grace"), (2, "edsger")]
}

#[test]
fn collect_rows_converts_every_row_in_order() {
    let result: DBResult<Vec<Person>> = collect_rows(people());
    assert_eq!(
        result,
        Ok(vec![
            Person { id: 3, name: String::from("ADA") },
            Person { id: 1, name: String::from("GRACE") },
            Person { id: 2, name: String::from("EDSGER") },
        ])
    );
}

#[test]
fn collect_rows_of_one_row_is_a_list_of_one() {
    let result: DBResult<Vec<u64>> = collect_rows(vec![7u32]);
    assert_eq!(result, Ok(vec![7u64]));
}

#[test]
fn collect_rows_of_no_rows_is_not_found() {
    let rows: Vec<(i32, &str)> = Vec::new();
    let result: DBResult<Vec<Person>> = collect_rows(rows);
    assert_eq!(result, Err((404, String::from("No results were found"))));
}

#[test]
fn first_row_converts_the_first_row_only() {
    let result: DBResult<Person> = first_row(people());
    assert_eq!(result, Ok(Person { id: 3, name: String::from("ADA") }));
}

#[test]
fn first_row_of_one_row_is_that_row() {
    let result: DBResult<u64> = first_row(vec![41u32]);
    assert_eq!(result, Ok(41u64));
}

#[test]
fn first_row_of_no_rows_is_not_found() {
    let rows: Vec<(i32, &str)> = Vec::new();
    let result: DBResult<Person> = first_row(rows);
    assert_eq!(result, Err((NOT_FOUND, String::from("No results were found"))));
}

#[test]
fn first_row_is_the_head_of_all_rows() {
    let all: DBResult<Vec<Person>> = collect_rows(people());
    let single: DBResult<Person> = first_row(people());
    assert_eq!(single.unwrap(), all.unwrap().swap_remove(0));
}

#[test]
fn both_fail_alike_on_no_rows() {
    let all: DBResult<Vec<u64>> = collect_rows(Vec::<u32>::new());
    let single: DBResult<u64> = first_row(Vec::<u32>::new());
    assert_eq!(all.unwrap_err(), single.unwrap_err());
}
