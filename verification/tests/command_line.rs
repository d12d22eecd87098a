use notos::cli::{Cli, Mode, Rejection};
use notos::error::{Failure, Malformed, OK, TARGET_NOT_FOUND, VALIDATION_FAIL};
use notos::intent::{join_values, parse_line_index, Intent};

fn cli(flags: [bool; 4], topic: Option<&str>, values: &[&str]) -> Cli {
    Cli {
        destroy: flags[0],
        delete_line: flags[1],
        edit: flags[2],
        dump_all: flags[3],
        topic: topic.map(|t| t.to_string()),
        value: values.iter().map(|v| v.to_string()).collect(),
    }
}

const DESTROY: [bool; 4] = [true, false, false, false];
const DELETE: [bool; 4] = [false, true, false, false];
const EDIT: [bool; 4] = [false, false, true, false];
const DUMP: [bool; 4] = [false, false, false, true];
const PLAIN: [bool; 4] = [false, false, false, false];

/// The table of legal combinations, written out on its own.
fn legal(flags: [bool; 4], has_topic: bool, has_values: bool) -> bool {
    let [destroy, delete_line, edit, dump_all] = flags;
    if destroy {
        !(delete_line || has_values || edit || dump_all)
    } else if delete_line {
        !(!has_topic || !has_values || dump_all)
    } else if edit {
        !(!has_topic || dump_all)
    } else if dump_all {
        !(has_topic || has_values)
    } else {
        true
    }
}

#[test]
fn every_combination_is_judged_by_the_table() {
    let mut seen = 0;
    for bits in 0..16u8 {
        let flags = [bits & 8 != 0, bits & 4 != 0, bits & 2 != 0, bits & 1 != 0];
        for has_topic in [false, true] {
            for has_values in [false, true] {
                let topic = if has_topic { Some("t") } else { None };
                let values: &[&str] = if has_values { &["1"] } else { &[] };
                let c = cli(flags, topic, values);
                let expected = legal(flags, has_topic, has_values);
                assert_eq!(c.validate().is_none(), expected, "{:?}", c);
                assert_eq!(c.refusal().is_none(), expected, "{:?}", c);
                assert_eq!(
                    matches!(c.intent(), Err(Failure::Validation(_))),
                    !expected,
                    "{:?}",
                    c
                );
                seen += 1;
            }
        }
    }
    assert_eq!(seen, 64);
}

#[test]
fn plain_is_always_accepted() {
    assert_eq!(cli(PLAIN, None, &[]).validate(), None);
    assert_eq!(cli(PLAIN, Some("t"), &[]).validate(), None);
    assert_eq!(cli(PLAIN, Some("t"), &["a", "b"]).validate(), None);
    assert_eq!(cli(PLAIN, None, &["a"]).validate(), None);
}

#[test]
fn destroy_is_refused_with_each_conflict() {
    let c = cli([true, true, false, false], Some("t"), &[]);
    assert_eq!(c.refusal(), Some(Rejection::DestroyWithDeleteLine));
    assert_eq!(
        c.validate(),
        Some("You can't both destroy a topic and also delete a line from it")
    );
    let c = cli(DESTROY, Some("t"), &["x"]);
    assert_eq!(c.refusal(), Some(Rejection::DestroyWithNote));
    assert_eq!(c.validate(), Some("If you wish to destroy a topic then do not add a note"));
    let c = cli([true, false, true, false], Some("t"), &[]);
    assert_eq!(c.refusal(), Some(Rejection::DestroyWithEdit));
    assert_eq!(
        c.validate(),
        Some("You can't use edit and destroy in the same call, choose one")
    );
    let c = cli([true, false, false, true], Some("t"), &[]);
    assert_eq!(c.refusal(), Some(Rejection::DestroyWithDumpAll));
    assert_eq!(
        c.validate(),
        Some("Destroying a topic and dumping all data are mutually exclusive")
    );
}

#[test]
fn delete_line_is_refused_with_each_conflict() {
    let c = cli(DELETE, None, &["1"]);
    assert_eq!(c.refusal(), Some(Rejection::DeleteLineWithoutTopic));
    assert_eq!(c.validate(), Some("You need to specify a topic from which to delete a line"));
    let c = cli(DELETE, Some("t"), &[]);
    assert_eq!(c.refusal(), Some(Rejection::DeleteLineWithoutLine));
    assert_eq!(c.validate(), Some("You need to specify a line to delete"));
    let c = cli([false, true, false, true], Some("t"), &["1"]);
    assert_eq!(c.refusal(), Some(Rejection::DeleteLineWithDumpAll));
    assert_eq!(c.validate(), Some("Either delete line or dump all data, not both"));
}

#[test]
fn edit_is_refused_with_each_conflict() {
    let c = cli(EDIT, None, &[]);
    assert_eq!(c.refusal(), Some(Rejection::EditWithoutTopic));
    assert_eq!(c.validate(), Some("You need to specify a topic to edit"));
    let c = cli([false, false, true, true], Some("t"), &[]);
    assert_eq!(c.refusal(), Some(Rejection::EditWithDumpAll));
    assert_eq!(c.validate(), Some("You must choose either to edit or dump all data"));
}

#[test]
fn dump_all_with_a_topic_is_refused() {
    let c = cli(DUMP, Some("mytopic"), &[]);
    assert_eq!(c.refusal(), Some(Rejection::DumpAllWithArguments));
    assert_eq!(
        c.validate(),
        Some("If you wish to dump all data then do not provide any further arguments")
    );
    let failure = c.intent().unwrap_err();
    assert_eq!(failure, Failure::Validation(Rejection::DumpAllWithArguments));
    assert_eq!(failure.exit_code(), Some(1));
    assert_eq!(cli(DUMP, None, &["x"]).refusal(), Some(Rejection::DumpAllWithArguments));
    assert_eq!(cli(DUMP, None, &[]).refusal(), None);
}

#[test]
fn first_violation_wins() {
    // destroy with every other flag and a value: the delete-line conflict comes first
    let c = cli([true, true, true, true], None, &["x"]);
    assert_eq!(c.refusal(), Some(Rejection::DestroyWithDeleteLine));
    // a value is looked at before edit and dump-all
    let c = cli([true, false, true, true], None, &["x"]);
    assert_eq!(c.refusal(), Some(Rejection::DestroyWithNote));
    // delete-line: the topic is looked at before the values
    let c = cli([false, true, false, true], None, &[]);
    assert_eq!(c.refusal(), Some(Rejection::DeleteLineWithoutTopic));
    let c = cli([false, true, false, true], Some("t"), &[]);
    assert_eq!(c.refusal(), Some(Rejection::DeleteLineWithoutLine));
}

#[test]
fn only_the_active_mode_is_examined() {
    // delete-line is active; that edit is set too is no violation of it
    let c = cli([false, true, true, false], Some("t"), &["0"]);
    assert_eq!(c.active_mode(), Mode::DeleteLine);
    assert_eq!(c.refusal(), None);
    assert_eq!(c.intent(), Ok(Intent::DeleteLine("t".to_string(), 0)));
}

#[test]
fn the_first_flag_set_is_the_mode() {
    assert_eq!(cli([true, true, true, true], None, &[]).active_mode(), Mode::Destroy);
    assert_eq!(cli([false, true, true, true], None, &[]).active_mode(), Mode::DeleteLine);
    assert_eq!(cli([false, false, true, true], None, &[]).active_mode(), Mode::Edit);
    assert_eq!(cli(DUMP, None, &[]).active_mode(), Mode::DumpAll);
    assert_eq!(cli(PLAIN, None, &[]).active_mode(), Mode::Plain);
}

#[test]
fn each_rejection_has_its_message() {
    assert_eq!(
        Rejection::DestroyWithDeleteLine.message(),
        "You can't both destroy a topic and also delete a line from it"
    );
    assert_eq!(
        Rejection::DumpAllWithArguments.message(),
        "If you wish to dump all data then do not provide any further arguments"
    );
    assert_eq!(Rejection::EditWithoutTopic.message(), "You need to specify a topic to edit");
}

#[test]
fn a_legal_command_line_becomes_one_intent() {
    assert_eq!(cli(DESTROY, Some("t"), &[]).intent(), Ok(Intent::Destroy("t".to_string())));
    assert_eq!(
        cli(DELETE, Some("t"), &["2"]).intent(),
        Ok(Intent::DeleteLine("t".to_string(), 2))
    );
    assert_eq!(cli(EDIT, Some("t"), &[]).intent(), Ok(Intent::Edit("t".to_string())));
    assert_eq!(cli(DUMP, None, &[]).intent(), Ok(Intent::DumpAll));
    assert_eq!(
        cli(PLAIN, Some("t"), &["buy", "milk"]).intent(),
        Ok(Intent::Append("t".to_string(), "buy milk".to_string()))
    );
    assert_eq!(cli(PLAIN, Some("t"), &[]).intent(), Ok(Intent::ReadTopic("t".to_string())));
    assert_eq!(cli(PLAIN, None, &[]).intent(), Ok(Intent::ListTopics));
}

#[test]
fn destroy_without_a_topic_finds_no_target() {
    let c = cli(DESTROY, None, &[]);
    assert_eq!(c.validate(), None);
    assert_eq!(c.intent(), Err(Failure::NotFound));
}

#[test]
fn a_bad_line_index_is_a_parse_failure() {
    let c = cli(DELETE, Some("t"), &["two"]);
    assert_eq!(c.validate(), None);
    assert_eq!(c.intent(), Err(Failure::Parse(Malformed::LineIndex)));
    let c = cli(DELETE, Some("t"), &["-1"]);
    assert_eq!(c.intent(), Err(Failure::Parse(Malformed::LineIndex)));
}

#[test]
fn only_the_first_value_is_the_line_index() {
    let c = cli(DELETE, Some("t"), &["3", "rest"]);
    assert_eq!(c.intent(), Ok(Intent::DeleteLine("t".to_string(), 3)));
}

#[test]
fn line_indexes_are_decimal_numbers() {
    assert_eq!(parse_line_index("0"), Some(0));
    assert_eq!(parse_line_index("7"), Some(7));
    assert_eq!(parse_line_index("42"), Some(42));
    assert_eq!(parse_line_index("007"), Some(7));
    assert_eq!(parse_line_index("+5"), Some(5));
    assert_eq!(parse_line_index(""), None);
    assert_eq!(parse_line_index("+"), None);
    assert_eq!(parse_line_index("++1"), None);
    assert_eq!(parse_line_index("-1"), None);
    assert_eq!(parse_line_index("1 "), None);
    assert_eq!(parse_line_index(" 1"), None);
    assert_eq!(parse_line_index("1a"), None);
    assert_eq!(parse_line_index("٣"), None);
}

#[test]
fn line_indexes_agree_with_the_standard_parser() {
    for text in ["0", "9", "10", "+12", "", "+", "-0", "1_000", "12x", "x12", "0x10"] {
        assert_eq!(parse_line_index(text), text.parse::<usize>().ok(), "{:?}", text);
    }
}

#[test]
fn line_indexes_stop_at_the_largest_usize() {
    let largest = usize::MAX.to_string();
    assert_eq!(parse_line_index(&largest), Some(usize::MAX));
    let mut beyond = largest.clone();
    beyond.push('0');
    assert_eq!(parse_line_index(&beyond), None);
    let next = (usize::MAX as u128 + 1).to_string();
    assert_eq!(parse_line_index(&next), None);
    assert_eq!(parse_line_index("99999999999999999999999999999999999999"), None);
}

#[test]
fn values_are_joined_with_single_spaces() {
    let values = |v: &[&str]| v.iter().map(|s| s.to_string()).collect::<Vec<String>>();
    assert_eq!(join_values(&values(&[])), "");
    assert_eq!(join_values(&values(&["one"])), "one");
    assert_eq!(join_values(&values(&["one", "two", "three"])), "one two three");
    assert_eq!(join_values(&values(&["a", "", "b"])), "a  b");
}

#[test]
fn exit_codes() {
    assert_eq!(OK, 0);
    assert_eq!(VALIDATION_FAIL, 1);
    assert_eq!(TARGET_NOT_FOUND, 2);
    assert_eq!(Failure::Validation(Rejection::EditWithDumpAll).exit_code(), Some(1));
    assert_eq!(Failure::NotFound.exit_code(), Some(2));
    assert_eq!(Failure::OutOfRange.exit_code(), None);
    assert_eq!(Failure::Parse(Malformed::LineIndex).exit_code(), None);
}
