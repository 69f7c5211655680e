use todo_list::parse_id;
use todo_list::process_args;
use todo_list::IdText;
use todo_list::Status;
use todo_list::Todo;
use todo_list::TodoError;
use todo_list::TodoStorage;

fn args(words: &[&str]) -> Vec<String> {
    words.iter().map(|word| word.to_string()).collect()
}

fn record(id: usize, title: &str, status: Status) -> Todo {
    Todo { id, title: title.to_string(), status }
}

fn two_tasks() -> TodoStorage {
    let mut storage = TodoStorage::new();
    storage.store(record(8, "buy milk", Status::PENDING));
    storage.store(record(9, "write report", Status::PENDING));
    storage
}

fn refused_untouched(words: &[&str]) {
    let mut storage = two_tasks();
    assert_eq!(
        process_args(&args(words), &mut storage),
        Err(TodoError::InvalidArguments),
        "{:?}",
        words
    );
    assert_eq!(
        storage.todos(),
        &vec![record(8, "buy milk", Status::PENDING), record(9, "write report", Status::PENDING)],
        "{:?}",
        words
    );
}

#[test]
fn all_lists_the_tasks() {
    let mut storage = two_tasks();
    assert_eq!(
        process_args(&args(&["prog", "--all"]), &mut storage),
        Ok(vec![
            record(1, "buy milk", Status::PENDING),
            record(2, "write report", Status::PENDING),
        ])
    );
}

#[test]
fn a_adds_a_task() {
    let mut storage = two_tasks();
    assert_eq!(
        process_args(&args(&["prog", "-a", "call home"]), &mut storage),
        Ok(vec![
            record(1, "buy milk", Status::PENDING),
            record(2, "write report", Status::PENDING),
            record(3, "call home", Status::PENDING),
        ])
    );
    assert_eq!(storage.len(), 3);
}

#[test]
fn a_title_may_look_like_a_flag() {
    let mut storage = TodoStorage::new();
    assert_eq!(
        process_args(&args(&["prog", "-a", "--all"]), &mut storage),
        Ok(vec![record(1, "--all", Status::PENDING)])
    );
}

#[test]
fn u_with_c_completes_a_task() {
    let mut storage = two_tasks();
    assert_eq!(
        process_args(&args(&["prog", "-u", "2", "-c"]), &mut storage),
        Ok(vec![
            record(1, "buy milk", Status::PENDING),
            record(2, "write report", Status::COMPLETED),
        ])
    );
}

#[test]
fn d_deletes_a_task() {
    let mut storage = two_tasks();
    assert_eq!(
        process_args(&args(&["prog", "-d", "1"]), &mut storage),
        Ok(vec![record(1, "write report", Status::PENDING)])
    );
}

#[test]
fn an_id_may_carry_a_plus_sign_and_leading_zeros() {
    let mut storage = two_tasks();
    assert_eq!(
        process_args(&args(&["prog", "-d", "+002"]), &mut storage),
        Ok(vec![record(1, "buy milk", Status::PENDING)])
    );
}

#[test]
fn an_id_out_of_range_is_an_invalid_id() {
    for words in [
        vec!["prog", "-d", "3"],
        vec!["prog", "-d", "0"],
        vec!["prog", "-u", "3", "-c"],
        vec!["prog", "-u", "0", "-c"],
        vec!["prog", "-d", "340282366920938463463374607431768211456"],
        vec!["prog", "-u", "340282366920938463463374607431768211456", "-c"],
    ] {
        let mut storage = two_tasks();
        assert_eq!(
            process_args(&args(&words), &mut storage),
            Err(TodoError::InvalidId),
            "{:?}",
            words
        );
        assert_eq!(
            storage.todos(),
            &vec![
                record(1, "buy milk", Status::PENDING),
                record(2, "write report", Status::PENDING),
            ],
            "{:?}",
            words
        );
    }
}

#[test]
fn the_program_name_alone_is_refused() {
    refused_untouched(&["prog"]);
}

#[test]
fn no_arguments_at_all_are_refused() {
    refused_untouched(&[]);
}

#[test]
fn unknown_flags_are_refused() {
    refused_untouched(&["prog", "--list"]);
    refused_untouched(&["prog", "-x", "1"]);
    refused_untouched(&["prog", "all"]);
    refused_untouched(&["prog", "--ALL"]);
    refused_untouched(&["prog", " --all"]);
    refused_untouched(&["prog", ""]);
}

#[test]
fn a_wrong_number_of_arguments_is_refused() {
    refused_untouched(&["prog", "--all", "now"]);
    refused_untouched(&["prog", "-a"]);
    refused_untouched(&["prog", "-a", "buy", "milk"]);
    refused_untouched(&["prog", "-u", "1"]);
    refused_untouched(&["prog", "-u"]);
    refused_untouched(&["prog", "-u", "1", "-c", "-c"]);
    refused_untouched(&["prog", "-d"]);
    refused_untouched(&["prog", "-d", "1", "2"]);
    refused_untouched(&["prog", "-d", "1", "2", "3", "4"]);
}

#[test]
fn update_without_the_complete_flag_is_refused() {
    refused_untouched(&["prog", "-u", "1", "-x"]);
    refused_untouched(&["prog", "-u", "1", "1"]);
    refused_untouched(&["prog", "-c", "1", "-u"]);
}

#[test]
fn an_id_that_is_no_number_is_refused() {
    refused_untouched(&["prog", "-d", "one"]);
    refused_untouched(&["prog", "-d", ""]);
    refused_untouched(&["prog", "-d", "-1"]);
    refused_untouched(&["prog", "-d", "1.0"]);
    refused_untouched(&["prog", "-d", " 1"]);
    refused_untouched(&["prog", "-d", "1 "]);
    refused_untouched(&["prog", "-d", "0x1"]);
    refused_untouched(&["prog", "-u", "first", "-c"]);
    refused_untouched(&["prog", "-u", "", "-c"]);
    refused_untouched(&["prog", "-u", "1_0", "-c"]);
}

#[test]
fn an_empty_title_is_refused() {
    refused_untouched(&["prog", "-a", ""]);
}

#[test]
fn numerals_are_read_in_base_ten() {
    assert_eq!(parse_id("0"), IdText::Id(0));
    assert_eq!(parse_id("7"), IdText::Id(7));
    assert_eq!(parse_id("10"), IdText::Id(10));
    assert_eq!(parse_id("1234567890"), IdText::Id(1234567890));
    assert_eq!(parse_id("+42"), IdText::Id(42));
    assert_eq!(parse_id("000"), IdText::Id(0));
    assert_eq!(parse_id("0099"), IdText::Id(99));
}

#[test]
fn the_largest_number_of_the_machine_is_still_an_id() {
    assert_eq!(parse_id(&usize::MAX.to_string()), IdText::Id(usize::MAX));
    assert_eq!(parse_id(&format!("+000{}", usize::MAX)), IdText::Id(usize::MAX));
}

#[test]
fn numerals_beyond_the_machine_are_too_large() {
    let past = (usize::MAX as u128 + 1).to_string();
    assert_eq!(parse_id(&past), IdText::TooLarge);
    assert_eq!(parse_id(&format!("{}0", usize::MAX)), IdText::TooLarge);
    assert_eq!(parse_id("99999999999999999999999999999999999999999999"), IdText::TooLarge);
}

#[test]
fn text_that_is_no_numeral_is_malformed() {
    for text in [
        "", "+", "-", "-1", "++1", "+-1", "1+", "1 ", " 1", "1a", "a1", "1.5", "1e3", "0x10",
        "1_000", "١٢", "１", "²", "one",
    ] {
        assert_eq!(parse_id(text), IdText::Malformed, "{:?}", text);
    }
}

#[test]
fn a_stray_letter_behind_a_huge_numeral_is_malformed() {
    assert_eq!(parse_id("99999999999999999999999999999999999999999999x"), IdText::Malformed);
}
