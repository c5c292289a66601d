use brush_ast::ast::{Assignment, AssignmentName, AssignmentValue, Word};
use brush_ast::declaration::{split_expanded_assignment, CommandArg, ExpandedAssignment};
use brush_ast::render::Display;
use brush_ast::source::SourceSpan;

#[test]
fn splits_on_the_first_equals() {
    let assignment = split_expanded_assignment("CC=gcc -E -P").unwrap();
    assert_eq!(assignment.name, "CC");
    assert!(!assignment.append);
    assert_eq!(assignment.value, "gcc -E -P");

    let assignment = split_expanded_assignment("EQ=a=b").unwrap();
    assert_eq!(assignment.name, "EQ");
    assert_eq!(assignment.value, "a=b");
}

#[test]
fn detects_the_append_form() {
    let assignment = split_expanded_assignment("MYVAR+=more").unwrap();
    assert_eq!(assignment.name, "MYVAR");
    assert!(assignment.append);
    assert_eq!(assignment.value, "more");
}

#[test]
fn no_equals_is_not_an_assignment() {
    assert!(split_expanded_assignment("CC").is_none());
}

#[test]
fn compound_array_value_is_not_a_scalar_assignment() {
    assert!(split_expanded_assignment("arr=(3 4)").is_none());
    assert!(split_expanded_assignment("arr+=(3 4)").is_none());
}

#[test]
fn empty_name_still_splits_for_the_caller_to_reject() {
    let assignment = split_expanded_assignment("=v").unwrap();
    assert_eq!(assignment.name, "");
    assert_eq!(assignment.value, "v");
}

#[test]
fn empty_operand_is_not_an_assignment() {
    assert!(split_expanded_assignment("").is_none());
    assert!(split_expanded_assignment("+").is_none());
}

#[test]
fn only_the_last_plus_belongs_to_the_operator() {
    let assignment = split_expanded_assignment("a++=1").unwrap();
    assert_eq!(assignment.name, "a+");
    assert!(assignment.append);
    assert_eq!(assignment.value, "1");

    let assignment = split_expanded_assignment("+=").unwrap();
    assert_eq!(assignment.name, "");
    assert!(assignment.append);
    assert_eq!(assignment.value, "");
}

#[test]
fn a_parenthesis_elsewhere_is_part_of_the_value() {
    let assignment = split_expanded_assignment("a= (x)").unwrap();
    assert_eq!(assignment.value, " (x)");
    let assignment = split_expanded_assignment("(a=x").unwrap();
    assert_eq!(assignment.name, "(a");
}

#[test]
fn text_outside_ascii_is_split_by_characters() {
    let assignment = split_expanded_assignment("größe+=über=\u{1F600}").unwrap();
    assert_eq!(assignment.name, "größe");
    assert!(assignment.append);
    assert_eq!(assignment.value, "über=\u{1F600}");
}

#[test]
fn parts_put_together_are_the_operand() {
    for operand in ["CC=gcc -E -P", "EQ=a=b", "MYVAR+=more", "=v", "a++=1", "+=", "x="] {
        let parts = split_expanded_assignment(operand).unwrap();
        let operator = if parts.append { "+=" } else { "=" };
        assert_eq!(format!("{}{}{}", parts.name, operator, parts.value), operand);
    }
}

#[test]
fn rewrapped_operand_is_printed_as_the_operand() {
    for operand in ["CC=gcc -E -P", "EQ=a=b", "MYVAR+=more", "=v", "N=one\n  two"] {
        let CommandArg::Assignment(assignment) =
            split_expanded_assignment(operand).unwrap().into_command_arg()
        else {
            panic!("expected an assignment");
        };
        assert_eq!(assignment.to_string(), operand);
    }
}

#[test]
fn command_arg_holds_the_parts_without_a_location() {
    let arg = ExpandedAssignment {
        name: "PATH".to_owned(),
        append: true,
        value: ":/opt".to_owned(),
    }
    .into_command_arg();
    assert_eq!(
        arg,
        CommandArg::Assignment(Assignment {
            name: AssignmentName::VariableName("PATH".to_owned()),
            value: AssignmentValue::Scalar(Word { value: ":/opt".to_owned(), loc: None }),
            append: true,
            loc: SourceSpan::default(),
        })
    );
}
