use fuzzy_matcher::skim::SkimMatcherV2;
use fuzzy_matcher::FuzzyMatcher;
use scrollback_search::{
    highlight, make_row, rank_scores, search_lines, Corpus, EricRow, FuzzySearcher, SearchTask,
    RESULT_LIMIT,
};
use termwiz::cell::CellAttributes;
use termwiz::surface::{Line, SEQ_ZERO};

fn corpus_of(lines: &[&str]) -> Corpus {
    Corpus::from_texts(lines.iter().map(|s| s.to_string()).collect())
}

fn never() -> bool {
    false
}

fn run(corpus: &Corpus, query: &str) -> Vec<EricRow> {
    let task = SearchTask { generation: 1, query: query.to_string() };
    corpus.perform_search(&task, &never).unwrap().into_rows()
}

fn skim_score(text: &str, query: &str) -> Option<i64> {
    SkimMatcherV2::default().fuzzy_match(text, query)
}

fn assert_ranked(rows: &[EricRow]) {
    for w in rows.windows(2) {
        assert!(
            w[0].score > w[1].score || (w[0].score == w[1].score && w[0].row_index < w[1].row_index)
        );
    }
}

fn assert_highlights_in_lines(corpus: &[&str], rows: &[EricRow]) {
    for r in rows {
        let len = corpus[r.row_index].chars().count();
        for &p in &r.positions {
            assert!(p < len);
        }
        assert_eq!(r.first_y, *r.positions.last().unwrap_or(&0));
    }
}

#[test]
fn empty_query_clears_results_and_hands_out_no_task() {
    let corpus = corpus_of(&["alpha", "beta"]);
    let mut searcher = FuzzySearcher::new();
    let task = searcher.search("a").unwrap();
    let outcome = corpus.perform_search(&task, &never).unwrap();
    assert!(searcher.publish(outcome));
    assert!(!searcher.current_results().is_empty());
    let none = searcher.search("");
    assert!(none.is_none());
    assert!(searcher.current_results().is_empty());
}

#[test]
fn bar_matches_lines_zero_one_and_three() {
    let lines = ["foo bar", "barfoo", "hello world", "bar baz bar"];
    let corpus = corpus_of(&lines);
    let rows = run(&corpus, "bar");
    let mut indices: Vec<usize> = rows.iter().map(|r| r.row_index).collect();
    indices.sort();
    assert_eq!(indices, vec![0, 1, 3]);
    assert_ranked(&rows);
    assert_highlights_in_lines(&lines, &rows);
    for r in &rows {
        assert_eq!(skim_score(lines[r.row_index], "bar"), Some(r.score));
        assert!(r.score > 0);
    }
}

#[test]
fn same_query_twice_gives_same_rows() {
    let lines = ["foo bar", "barfoo", "hello world", "bar baz bar"];
    let corpus = corpus_of(&lines);
    let a = run(&corpus, "bar");
    let b = run(&corpus, "bar");
    assert_eq!(a.len(), b.len());
    for (x, y) in a.iter().zip(b.iter()) {
        assert_eq!(x.row_index, y.row_index);
        assert_eq!(x.score, y.score);
        assert_eq!(x.first_y, y.first_y);
        assert_eq!(x.positions, y.positions);
    }
}

#[test]
fn one_hundred_fifty_matches_are_capped_at_one_hundred() {
    let texts: Vec<String> = (0..150).map(|i| format!("line {} x{}", i, "z".repeat(i % 7))).collect();
    let strs: Vec<&str> = texts.iter().map(|s| s.as_str()).collect();
    let corpus = corpus_of(&strs);
    let rows = run(&corpus, "line");
    assert_eq!(rows.len(), 100);
    assert_eq!(RESULT_LIMIT, 100);
    assert_ranked(&rows);
    let last = rows.last().unwrap();
    for (i, t) in strs.iter().enumerate() {
        if !rows.iter().any(|r| r.row_index == i) {
            let s = skim_score(t, "line").unwrap();
            assert!(s < last.score || (s == last.score && i > last.row_index));
        }
    }
}

#[test]
fn empty_submission_after_a_leaves_results_empty() {
    let corpus = corpus_of(&["a line", "another"]);
    let mut searcher = FuzzySearcher::new();
    let task_a = searcher.search("a").unwrap();
    assert!(searcher.search("").is_none());
    let outcome = corpus.perform_search(&task_a, &never).unwrap();
    assert!(!searcher.publish(outcome));
    assert!(searcher.current_results().is_empty());
}

#[test]
fn superseded_task_cannot_publish_and_latest_can() {
    let lines = ["foo bar", "barfoo", "hello world", "bar baz bar"];
    let corpus = corpus_of(&lines);
    let mut searcher = FuzzySearcher::new();
    let t1 = searcher.search("hello").unwrap();
    let t2 = searcher.search("bar").unwrap();
    assert_ne!(t1.generation, t2.generation);
    assert!(!searcher.is_current(t1.generation));
    let o2 = corpus.perform_search(&t2, &never).unwrap();
    let o1 = corpus.perform_search(&t1, &never).unwrap();
    assert!(searcher.publish(o2));
    assert!(!searcher.publish(o1));
    let mut indices: Vec<usize> = searcher.current_results().iter().map(|r| r.row_index).collect();
    indices.sort();
    assert_eq!(indices, vec![0, 1, 3]);
}

#[test]
fn cancelled_search_returns_nothing() {
    let corpus = corpus_of(&["foo bar", "barfoo"]);
    let task = SearchTask { generation: 3, query: "bar".to_string() };
    let always = || true;
    assert!(corpus.perform_search(&task, &always).is_none());
}

#[test]
fn search_on_empty_corpus_is_empty() {
    let corpus = corpus_of(&[]);
    assert!(run(&corpus, "bar").is_empty());
    assert_eq!(corpus.len(), 0);
}

#[test]
fn stop_makes_tasks_stale() {
    let corpus = corpus_of(&["foo bar"]);
    let mut searcher = FuzzySearcher::new();
    let task = searcher.search("foo").unwrap();
    searcher.stop();
    assert!(!searcher.is_current(task.generation));
    let outcome = corpus.perform_search(&task, &never).unwrap();
    assert!(!searcher.publish(outcome));
    assert!(searcher.current_results().is_empty());
}

#[test]
fn generations_count_up_from_zero() {
    let mut searcher = FuzzySearcher::new();
    assert_eq!(searcher.generation(), 0);
    let t = searcher.search("x").unwrap();
    assert_eq!(t.generation, 1);
    assert_eq!(t.query, "x");
    assert!(searcher.search("").is_none());
    assert_eq!(searcher.generation(), 2);
}

#[test]
fn ranking_orders_by_score_then_line() {
    let scores = vec![Some(5), None, Some(7), Some(0), Some(5), Some(-3)];
    assert_eq!(rank_scores(&scores), vec![(7, 2), (5, 0), (5, 4)]);
}

#[test]
fn ranking_keeps_the_best_hundred() {
    let scores: Vec<Option<i64>> = (0..150).map(|i| Some(i as i64 + 1)).collect();
    let r = rank_scores(&scores);
    assert_eq!(r.len(), 100);
    assert_eq!(r[0], (150, 149));
    assert_eq!(r[99], (51, 50));
    let equal: Vec<Option<i64>> = vec![Some(4); 150];
    let r = rank_scores(&equal);
    let indices: Vec<usize> = r.iter().map(|e| e.1).collect();
    assert_eq!(indices, (0..100).collect::<Vec<usize>>());
}

#[test]
fn ranking_of_no_scores_is_empty() {
    assert!(rank_scores(&vec![]).is_empty());
    assert!(rank_scores(&vec![None, Some(0)]).is_empty());
}

#[test]
fn highlight_marks_the_matched_characters() {
    let expected = SkimMatcherV2::default().fuzzy_indices("foo bar", "bar").unwrap().1;
    assert_eq!(expected, vec![4, 5, 6]);
    assert_eq!(highlight("foo bar", "bar"), vec![4, 5, 6]);
    assert!(highlight("hello", "bar").is_empty());
}

#[test]
fn row_anchor_is_last_highlight() {
    let row = make_row("foo bar", "bar", 42, 7);
    assert_eq!(row.row_index, 7);
    assert_eq!(row.score, 42);
    assert_eq!(row.positions, vec![4, 5, 6]);
    assert_eq!(row.first_y, 6);
    let none = make_row("hello", "bar", 1, 2);
    assert_eq!(none.first_y, 0);
    assert!(none.positions.is_empty());
}

#[test]
fn search_lines_on_empty_query_is_empty() {
    let lines = vec!["foo".to_string()];
    assert!(search_lines(&lines, "", &never).unwrap().is_empty());
}

#[test]
fn corpus_captures_terminal_lines() {
    let attrs = CellAttributes::default();
    let lines = vec![
        Line::from_text("foo bar", &attrs, SEQ_ZERO, None),
        Line::from_text("hello world", &attrs, SEQ_ZERO, None),
    ];
    let corpus = Corpus::new(lines);
    assert_eq!(corpus.len(), 2);
    assert_eq!(corpus.line(0).trim_end(), "foo bar");
    assert_eq!(corpus.line(1).trim_end(), "hello world");
    let rows = run(&corpus, "world");
    assert_eq!(rows.len(), 1);
    assert_eq!(rows[0].row_index, 1);
}

#[test]
fn empty_query_succeeds_even_when_cancelled() {
    let corpus = corpus_of(&["foo bar"]);
    let task = SearchTask { generation: 1, query: String::new() };
    let always = || true;
    let outcome = corpus.perform_search(&task, &always).unwrap();
    assert!(outcome.rows().is_empty());
    let lines = vec!["foo".to_string()];
    assert!(search_lines(&lines, "", &always).unwrap().is_empty());
}
