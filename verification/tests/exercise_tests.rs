use taskdispatch::colors::get_rgb;
use taskdispatch::guess::{attempts_to_guess, check_guess};
use taskdispatch::items::{is_termination_signal, producer_values, TERMINATION_SIGNAL};
use taskdispatch::menu::{parse_menu_choice, MenuChoice};
use taskdispatch::numbers::{is_even, label_number, largest, sum_numbers, NumberLabel};

#[test]
fn guess_feedback() {
    assert_eq!(check_guess(7, 7), 0);
    assert_eq!(check_guess(9, 7), 1);
    assert_eq!(check_guess(3, 7), -1);
}

#[test]
fn guessing_game_takes_four_attempts() {
    assert_eq!(attempts_to_guess(&[3, 5, 9, 7, 10], 7), 4);
    assert_eq!(attempts_to_guess(&[7], 7), 1);
}

#[test]
fn evenness() {
    assert!(is_even(12));
    assert!(!is_even(7));
    assert!(is_even(0));
    assert!(is_even(-4));
    assert!(!is_even(-3));
}

#[test]
fn number_labels() {
    let numbers = [12, 7, 9, 20, 15, 3, 8, 30, 5, 11];
    let labels: Vec<NumberLabel> = numbers.iter().map(|&n| label_number(n)).collect();
    assert_eq!(
        labels,
        vec![
            NumberLabel::Fizz,
            NumberLabel::Odd,
            NumberLabel::Fizz,
            NumberLabel::Buzz,
            NumberLabel::FizzBuzz,
            NumberLabel::Fizz,
            NumberLabel::Even,
            NumberLabel::FizzBuzz,
            NumberLabel::Buzz,
            NumberLabel::Odd,
        ]
    );
    assert_eq!(label_number(-15), NumberLabel::FizzBuzz);
    assert_eq!(label_number(-4), NumberLabel::Even);
    assert_eq!(label_number(-7), NumberLabel::Odd);
    assert_eq!(NumberLabel::FizzBuzz.name(), "FizzBuzz");
    assert_eq!(NumberLabel::Odd.name(), "Odd");
}

#[test]
fn sum_and_largest() {
    let numbers = [12, 7, 9, 20, 15, 3, 8, 30, 5, 11];
    assert_eq!(sum_numbers(&numbers), 120);
    assert_eq!(largest(&numbers), 30);
    assert_eq!(sum_numbers(&[]), 0);
    assert_eq!(largest(&[-5, -2, -9]), -2);
}

#[test]
fn rgb_letters() {
    assert_eq!(get_rgb('R'), (255, 0, 0));
    assert_eq!(get_rgb('G'), (0, 255, 0));
    assert_eq!(get_rgb('B'), (0, 0, 255));
    assert_eq!(get_rgb('x'), (0, 0, 0));
}

#[test]
fn producer_items_are_in_range() {
    let mut rng = rand::thread_rng();
    let items = producer_values(&mut rng, 500);
    assert_eq!(items.len(), 500);
    assert!(items.iter().all(|&v| (1..=100).contains(&v)));
    assert!(items.iter().all(|&v| !is_termination_signal(v)));
    let distinct: std::collections::BTreeSet<i32> = items.iter().copied().collect();
    assert!(distinct.len() > 10);
    assert!(is_termination_signal(TERMINATION_SIGNAL));
    assert!(is_termination_signal(-1));
    assert!(!is_termination_signal(0));
}

#[test]
fn menu_choices() {
    assert_eq!(parse_menu_choice("1"), MenuChoice::List);
    assert_eq!(parse_menu_choice("2"), MenuChoice::Display);
    assert_eq!(parse_menu_choice("3"), MenuChoice::Create);
    assert_eq!(parse_menu_choice("4"), MenuChoice::Remove);
    assert_eq!(parse_menu_choice("5"), MenuChoice::Pwd);
    assert_eq!(parse_menu_choice("0"), MenuChoice::Exit);
    assert_eq!(parse_menu_choice("6"), MenuChoice::Invalid);
    assert_eq!(parse_menu_choice("11"), MenuChoice::Invalid);
    assert_eq!(parse_menu_choice(""), MenuChoice::Invalid);
    assert_eq!(parse_menu_choice("a"), MenuChoice::Invalid);
}

use taskdispatch::fileops::{command_for, FileOperation};

#[test]
fn file_operation_commands() {
    let c = command_for(&FileOperation::List("/tmp".to_string()));
    assert_eq!(c.program, "ls");
    assert_eq!(c.args, vec!["/tmp".to_string()]);
    let c = command_for(&FileOperation::Display("a.txt".to_string()));
    assert_eq!(c.program, "cat");
    assert_eq!(c.args, vec!["a.txt".to_string()]);
    let c = command_for(&FileOperation::Create("notes.txt".to_string(), "hello world".to_string()));
    assert_eq!(c.program, "sh");
    assert_eq!(c.args, vec!["-c".to_string(), "echo 'hello world' > notes.txt".to_string()]);
    let c = command_for(&FileOperation::Remove("old.txt".to_string()));
    assert_eq!(c.program, "rm");
    assert_eq!(c.args, vec!["old.txt".to_string()]);
    let c = command_for(&FileOperation::Pwd);
    assert_eq!(c.program, "pwd");
    assert!(c.args.is_empty());
}
