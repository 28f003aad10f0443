use tictactoe::input::pick_choice;
use tictactoe::{Choice, GameState, Slot, TicTacToe};

fn symbols() -> Vec<char> {
    vec!['X', 'O']
}

#[test]
fn lower_case_symbol_is_accepted_after_trimming() {
    assert_eq!(TicTacToe::get_input("  x \n", &symbols(), false), Choice::Picked('X'));
    assert_eq!(TicTacToe::get_input("o\n", &symbols(), false), Choice::Picked('O'));
}

#[test]
fn only_the_first_character_counts() {
    assert_eq!(TicTacToe::get_input("Oh no\n", &symbols(), false), Choice::Picked('O'));
    assert_eq!(TicTacToe::get_input("ax\n", &symbols(), false), Choice::Rejected);
}

#[test]
fn blank_line() {
    assert_eq!(TicTacToe::get_input(" \n", &vec!['Y', 'N'], true), Choice::Blank);
    assert_eq!(TicTacToe::get_input("\n", &symbols(), false), Choice::Rejected);
    assert_eq!(TicTacToe::get_input("", &vec!['1', '2', '3'], false), Choice::Rejected);
}

#[test]
fn digits_outside_range_are_rejected() {
    let digits = vec!['1', '2', '3'];
    assert_eq!(TicTacToe::get_input("4\n", &digits, false), Choice::Rejected);
    assert_eq!(TicTacToe::get_input("0\n", &digits, false), Choice::Rejected);
    assert_eq!(TicTacToe::get_input("3\n", &digits, false), Choice::Picked('3'));
}

#[test]
fn pick_on_prepared_text() {
    assert_eq!(pick_choice("N", &vec!['Y', 'N']), Choice::Picked('N'));
    assert_eq!(pick_choice("n", &vec!['Y', 'N']), Choice::Rejected);
    assert_eq!(pick_choice("", &vec!['Y', 'N']), Choice::Rejected);
}

#[test]
fn slot_from_choice() {
    assert_eq!(TicTacToe::get_slot_input(Choice::Picked('X')), Slot::X);
    assert_eq!(TicTacToe::get_slot_input(Choice::Picked('O')), Slot::O);
    assert_eq!(TicTacToe::get_slot_input(Choice::Picked('Y')), Slot::Empty);
    assert_eq!(TicTacToe::get_slot_input(Choice::Rejected), Slot::Empty);
}

#[test]
fn index_from_choice() {
    assert_eq!(TicTacToe::get_index_input(Choice::Picked('1')), Some(0));
    assert_eq!(TicTacToe::get_index_input(Choice::Picked('2')), Some(1));
    assert_eq!(TicTacToe::get_index_input(Choice::Picked('3')), Some(2));
    assert_eq!(TicTacToe::get_index_input(Choice::Picked('4')), None);
    assert_eq!(TicTacToe::get_index_input(Choice::Blank), None);
}

#[test]
fn replay_answer() {
    let yes_no = vec!['Y', 'N'];
    let yes = TicTacToe::get_input("y\n", &yes_no, true);
    assert_eq!(TicTacToe::get_replay_input(yes), GameState::Replay);
    let no = TicTacToe::get_input("n\n", &yes_no, true);
    assert_eq!(TicTacToe::get_replay_input(no), GameState::Exit);
    let blank = TicTacToe::get_input("\n", &yes_no, true);
    assert_eq!(TicTacToe::get_replay_input(blank), GameState::Exit);
    assert!(TicTacToe::play(GameState::Replay));
    assert!(!TicTacToe::play(GameState::Exit));
}
