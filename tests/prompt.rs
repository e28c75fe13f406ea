use scrollback_search::{
    Corpus, EricRow, EricWindow, FuzzySearcher, PromptAction, PromptKey, PromptMods,
};

fn never() -> bool {
    false
}

fn searcher_with_bar_results() -> FuzzySearcher {
    let corpus = Corpus::from_texts(
        ["foo bar", "barfoo", "hello world", "bar baz bar"].iter().map(|s| s.to_string()).collect(),
    );
    let mut searcher = FuzzySearcher::new();
    let task = searcher.search("bar").unwrap();
    let outcome = corpus.perform_search(&task, &never).unwrap();
    assert!(searcher.publish(outcome));
    searcher
}

#[test]
fn typing_edits_the_query_and_submits_it() {
    let mut window = EricWindow::new();
    let mut searcher = FuzzySearcher::new();
    match window.key_down(PromptKey::Char('b'), PromptMods::Plain, &mut searcher) {
        PromptAction::Searched(Some(task)) => assert_eq!(task.query, "b"),
        other => panic!("unexpected {:?}", other),
    }
    match window.key_down(PromptKey::Char('A'), PromptMods::Shift, &mut searcher) {
        PromptAction::Searched(Some(task)) => assert_eq!(task.query, "bA"),
        other => panic!("unexpected {:?}", other),
    }
    assert_eq!(window.selection(), "bA");
    assert_eq!(window.prompt_text(), "> bA_");
    match window.key_down(PromptKey::Backspace, PromptMods::Plain, &mut searcher) {
        PromptAction::Searched(Some(task)) => assert_eq!(task.query, "b"),
        other => panic!("unexpected {:?}", other),
    }
    match window.key_down(PromptKey::Backspace, PromptMods::Plain, &mut searcher) {
        PromptAction::Searched(None) => {}
        other => panic!("unexpected {:?}", other),
    }
    assert_eq!(window.selection(), "");
    assert_eq!(window.prompt_text(), "> _");
    assert!(matches!(
        window.key_down(PromptKey::Backspace, PromptMods::Plain, &mut searcher),
        PromptAction::Searched(None)
    ));
}

#[test]
fn moving_stays_inside_the_results() {
    let mut searcher = searcher_with_bar_results();
    let len = searcher.current_results().len();
    assert_eq!(len, 3);
    let mut window = EricWindow::new();
    assert!(matches!(window.key_down(PromptKey::UpArrow, PromptMods::Plain, &mut searcher), PromptAction::Moved));
    assert_eq!(window.selected_row(), 0);
    assert_eq!(window.top_row(), searcher.current_results()[0].row_index);
    for _ in 0..5 {
        window.key_down(PromptKey::DownArrow, PromptMods::Plain, &mut searcher);
    }
    assert_eq!(window.selected_row(), 2);
    assert_eq!(window.top_row(), searcher.current_results()[2].row_index);
    window.key_down(PromptKey::Char('p'), PromptMods::Ctrl, &mut searcher);
    assert_eq!(window.selected_row(), 1);
    window.key_down(PromptKey::Char('n'), PromptMods::Ctrl, &mut searcher);
    assert_eq!(window.selected_row(), 2);
}

#[test]
fn moving_in_no_results_stays_at_zero() {
    let mut window = EricWindow::new();
    let results = Vec::new();
    window.move_down(&results);
    assert_eq!(window.selected_row(), 0);
    window.move_up(&results);
    assert_eq!(window.selected_row(), 0);
}

#[test]
fn enter_accepts_the_selected_result() {
    let mut searcher = searcher_with_bar_results();
    let mut window = EricWindow::new();
    window.key_down(PromptKey::DownArrow, PromptMods::Plain, &mut searcher);
    let expected = searcher.current_results()[1].clone();
    match window.key_down(PromptKey::Enter, PromptMods::Plain, &mut searcher) {
        PromptAction::Accept { row_index, column } => {
            assert_eq!(row_index, expected.row_index);
            assert_eq!(column, expected.first_y);
        }
        other => panic!("unexpected {:?}", other),
    }
}

#[test]
fn enter_without_results_closes() {
    let mut searcher = FuzzySearcher::new();
    let mut window = EricWindow::new();
    assert!(matches!(window.key_down(PromptKey::Enter, PromptMods::Plain, &mut searcher), PromptAction::Close));
}

#[test]
fn escape_and_ctrl_g_close_and_other_keys_are_ignored() {
    let mut searcher = FuzzySearcher::new();
    let mut window = EricWindow::new();
    assert!(matches!(window.key_down(PromptKey::Escape, PromptMods::Plain, &mut searcher), PromptAction::Close));
    assert!(matches!(window.key_down(PromptKey::Char('g'), PromptMods::Ctrl, &mut searcher), PromptAction::Close));
    assert!(matches!(window.key_down(PromptKey::Other, PromptMods::Plain, &mut searcher), PromptAction::Ignored));
    assert!(matches!(window.key_down(PromptKey::Char('x'), PromptMods::Other, &mut searcher), PromptAction::Ignored));
    assert!(matches!(window.key_down(PromptKey::Escape, PromptMods::Shift, &mut searcher), PromptAction::Ignored));
    assert_eq!(searcher.generation(), 0);
    assert_eq!(window.selection(), "");
}

#[test]
fn new_input_selects_the_first_result() {
    let mut searcher = searcher_with_bar_results();
    let mut window = EricWindow::new();
    window.key_down(PromptKey::DownArrow, PromptMods::Plain, &mut searcher);
    assert_eq!(window.selected_row(), 1);
    window.key_down(PromptKey::Char('z'), PromptMods::Plain, &mut searcher);
    assert_eq!(window.selected_row(), 0);
    assert_eq!(window.top_row(), 0);
}

fn row(line: usize) -> EricRow {
    EricRow { row_index: line, score: 1, first_y: 0, positions: Vec::new() }
}

#[test]
fn moving_down_on_the_last_row_changes_nothing() {
    let results = vec![row(5)];
    let mut window = EricWindow::new();
    window.move_down(&results);
    assert_eq!(window.selected_row(), 0);
    assert_eq!(window.top_row(), 0);
}

#[test]
fn moving_down_without_results_keeps_the_selection() {
    let results = vec![row(10), row(11), row(12), row(13)];
    let mut window = EricWindow::new();
    for _ in 0..3 {
        window.move_down(&results);
    }
    assert_eq!(window.selected_row(), 3);
    assert_eq!(window.top_row(), 13);
    window.move_down(&Vec::new());
    assert_eq!(window.selected_row(), 3);
    assert_eq!(window.top_row(), 13);
}
