use rstorial::domains::entry::Entry;
use rstorial::domains::work::{Work, WorkError};

const TEST_BASE_DIR_PATH: &str = "./target/test";

fn generate_reference_struct() -> Work {
    Work::new(
        "test_id",
        "test_author",
        "test_title",
        "test_description",
        TEST_BASE_DIR_PATH,
    )
}

#[test]
fn description_path_returns_description_yml_path() {
    let work = generate_reference_struct();
    let sut = work.description_path();
    let expected = format!("{}/description.yml", work.work_dir_path());
    assert_eq!(sut, expected);
}

#[test]
fn work_dir_path_returns_working_directory_path() {
    let work = generate_reference_struct();
    let sut = work.work_dir_path();
    let expected = format!("{}/test_id", work.base_path());
    assert_eq!(sut, expected);
}

#[test]
fn new_work_has_the_given_fields_and_no_entries() {
    let work = generate_reference_struct();
    assert_eq!(work.id(), "test_id");
    assert_eq!(work.author(), "test_author");
    assert_eq!(work.title(), "test_title");
    assert_eq!(work.description(), "test_description");
    assert_eq!(work.base_path(), TEST_BASE_DIR_PATH);
    assert!(work.entries().is_empty());
}

#[test]
fn paths_of_a_work_under_a_trailing_slash() {
    let work = Work::new("akeyume", "Horino", "Title", "desc", "./");
    assert_eq!(work.work_dir_path(), "./akeyume");
    assert_eq!(work.description_path(), "./akeyume/description.yml");
    assert_eq!(work.chapter_dir_path("ch1"), "./akeyume/chapters/ch1");
}

#[test]
fn paths_of_a_work_under_an_empty_base_path() {
    let work = Work::new("w", "a", "t", "d", "");
    assert_eq!(work.work_dir_path(), "w");
    assert_eq!(work.description_path(), "w/description.yml");
}

#[test]
fn add_entry_numbers_entries_from_one() {
    let work = Work::new("w", "a", "t", "d", "/base");
    let work = work.add_entry("ch");
    let work = work.add_entry("ch");
    let work = work.add_entry("ch");
    let ids: Vec<&str> = work.entries().iter().map(|e| e.id()).collect();
    assert_eq!(ids, vec!["ch-1", "ch-2", "ch-3"]);
    assert!(work.entries().iter().all(|e| e.title() == ""));
}

#[test]
fn add_entry_numbers_after_all_entries_whatever_their_chapter() {
    let work = Work::new("w", "a", "t", "d", "/base").add_entry("one").add_entry("two");
    let ids: Vec<&str> = work.entries().iter().map(|e| e.id()).collect();
    assert_eq!(ids, vec!["one-1", "two-2"]);
}

#[test]
fn add_entry_keeps_the_other_fields() {
    let before = generate_reference_struct();
    let after = before.clone().add_entry("ch");
    assert_eq!(after.id(), before.id());
    assert_eq!(after.title(), before.title());
    assert_eq!(after.author(), before.author());
    assert_eq!(after.description(), before.description());
    assert_eq!(after.base_path(), before.base_path());
    assert_eq!(after.work_dir_path(), before.work_dir_path());
    assert_eq!(after.entries().len(), 1);
}

#[test]
fn add_entry_after_ten_entries_has_a_two_digit_number() {
    let mut work = Work::new("w", "a", "t", "d", "/base");
    for _ in 0..10 {
        work = work.add_entry("ch");
    }
    assert_eq!(work.next_entry("ch").id(), "ch-11");
    let work = work.add_entry("ch");
    assert_eq!(work.entries()[10].id(), "ch-11");
}

#[test]
fn scenario_new_work_with_one_chapter() {
    let work = Work::new("akeyume", "Horino", "Title", "desc", "./");
    assert_eq!(
        work.init(Ok(()), false),
        Ok(String::from("./akeyume/description.yml"))
    );
    let chapter_dir = work.chapter_dir_path("ch1");
    let work = work.add_entry("ch1");
    assert_eq!(work.entries().clone(), vec![Entry::from_parts("ch1-1", "")]);
    assert_eq!(
        work.entries()[0].entry_path(&chapter_dir),
        "./akeyume/chapters/ch1/ch1-1.txt"
    );
    let reloaded = Work::from_parts(
        "akeyume",
        "Horino",
        "Title",
        "desc",
        "./",
        vec![Entry::from_parts("ch1-1", "")],
    );
    assert_eq!(reloaded, work);
}

#[test]
fn describe_names_title_and_author() {
    let work = Work::new("akeyume", "Horino", "Title", "desc", "./");
    assert_eq!(work.describe(), "Title, written by Horino");
}

#[test]
fn check_load_target_reports_a_missing_file() {
    assert_eq!(Work::check_load_target(false, false), Err(WorkError::NotFound));
}

#[test]
fn check_load_target_reports_a_directory() {
    assert_eq!(Work::check_load_target(true, true), Err(WorkError::InvalidInput));
}

#[test]
fn check_load_target_accepts_a_file() {
    assert_eq!(Work::check_load_target(true, false), Ok(()));
}

#[test]
fn check_create_target_refuses_an_existing_file() {
    assert_eq!(Work::check_create_target(true), Err(WorkError::AlreadyExists));
    assert_eq!(Work::check_create_target(false), Ok(()));
}

#[test]
fn generate_dir_if_exists_takes_an_existing_directory_as_made() {
    assert_eq!(Work::generate_dir_if_exists(Err(WorkError::AlreadyExists)), Ok(()));
    assert_eq!(Work::generate_dir_if_exists(Ok(())), Ok(()));
    assert_eq!(Work::generate_dir_if_exists(Err(WorkError::Io)), Err(WorkError::Io));
}

#[test]
fn init_twice_fails_at_the_description_step() {
    let work = generate_reference_struct();
    let first = work.init(Ok(()), false);
    assert_eq!(first, Ok(work.description_path()));
    let second = work.init(Err(WorkError::AlreadyExists), true);
    assert_eq!(second, Err(WorkError::AlreadyExists));
    assert!(work.entries().is_empty());
}

#[test]
fn init_stops_on_a_directory_failure() {
    let work = generate_reference_struct();
    assert_eq!(work.init(Err(WorkError::Io), false), Err(WorkError::Io));
}
