use ytconvertv2::error::{
    code_label_string, run_search_job, search_errors, sort_by_scores, Error, ErrorManager, ErrorManagerEvent,
    ErrorSeverity,
};

fn err(code: u16, title: &str, severity: ErrorSeverity, description: Option<&str>) -> Error {
    Error::from_parts(code, title, severity, description)
}

fn titles(list: &[Error]) -> Vec<String> {
    list.iter().map(|e| e.title.clone()).collect()
}

#[test]
fn error_from_parts_keeps_each_part() {
    let e = err(7, "No Installation of ffmpeg", ErrorSeverity::Error, Some("desc"));
    assert_eq!(e.code, 7);
    assert_eq!(e.title, "No Installation of ffmpeg");
    assert_eq!(e.severity, ErrorSeverity::Error);
    assert_eq!(e.description.as_deref(), Some("desc"));
    let w = Error::new(0, "t".to_string(), ErrorSeverity::Warning, None);
    assert!(w.description.is_none());
}

#[test]
fn code_labels_have_five_digits() {
    assert_eq!(code_label_string(7), "E00007");
    assert_eq!(code_label_string(300), "E00300");
    assert_eq!(code_label_string(65535), "E65535");
}

#[test]
fn fuzzy_score_uses_the_best_field() {
    let e = err(202, "Reqwest Response Bytes Conversion Failed", ErrorSeverity::Warning, None);
    assert!(e.fuzzy_score("reqwest") > 0);
    assert!(e.fuzzy_score("E00202") > 0);
    assert_eq!(e.fuzzy_score("zzzzqqq"), 0);
    assert_eq!(e.fuzzy_score(""), 0);
}

#[test]
fn blank_search_keeps_the_order() {
    let list = vec![
        err(1, "B", ErrorSeverity::Error, None),
        err(2, "A", ErrorSeverity::Warning, None),
    ];
    assert_eq!(titles(&search_errors(&list, &"  ".to_string())), vec!["B", "A"]);
}

#[test]
fn search_puts_the_best_match_first() {
    let list = vec![
        err(1, "Oneshot Channel Reciever Failure", ErrorSeverity::Error, None),
        err(0, "Image Loading Failed", ErrorSeverity::Warning, Some("Failed to load default thumbnail image")),
        err(2, "MPSC Channel Send Failure", ErrorSeverity::Error, None),
    ];
    let r = search_errors(&list, &"thumbnail".to_string());
    assert_eq!(r.len(), 3);
    assert_eq!(r[0].title, "Image Loading Failed");
    // errors that do not match keep their order after it
    assert_eq!(titles(&r[1..]), vec!["Oneshot Channel Reciever Failure", "MPSC Channel Send Failure"]);
}

#[test]
fn search_result_is_a_reordering() {
    let list = vec![
        err(10, "Missing Exported File", ErrorSeverity::Error, None),
        err(11, "Ambiguous File Found", ErrorSeverity::Error, None),
        err(12, "Invalid PathBuf Found", ErrorSeverity::Error, None),
    ];
    let r = search_errors(&list, &"found".to_string());
    let mut a = titles(&r);
    let mut b = titles(&list);
    a.sort();
    b.sort();
    assert_eq!(a, b);
    for w in r.windows(2) {
        assert!(w[0].fuzzy_score("found") >= w[1].fuzzy_score("found"));
    }
}

#[test]
fn manager_counts_errors_by_severity() {
    let mut m = ErrorManager::default();
    m.receive_error(err(1, "a", ErrorSeverity::Error, None));
    m.receive_error(err(2, "b", ErrorSeverity::Warning, None));
    m.receive_error(err(3, "c", ErrorSeverity::Error, None));
    assert_eq!(m.error_count, 2);
    assert_eq!(m.warning_count, 1);
    assert_eq!(m.error_count + m.warning_count, m.errors.len());
    assert_eq!(titles(&m.errors), vec!["c", "b", "a"]);
}

#[test]
fn manager_search_round_trip() {
    let mut m = ErrorManager::default();
    let _ = m.receive_error(err(1, "Alpha", ErrorSeverity::Error, None));
    let _ = m.receive_error(err(2, "Image Loading Failed", ErrorSeverity::Warning, None));
    assert!(m.handle_event(ErrorManagerEvent::SetPopup(true)).is_none());
    assert!(m.popup_open);
    let job = m.handle_event(ErrorManagerEvent::SetSearchString("alpha".to_string())).unwrap();
    assert_eq!(job.search, "alpha");
    assert!(m.popup_sorted_errors.is_empty());
    let answer = run_search_job(&job);
    assert!(m.handle_event(answer).is_none());
    assert_eq!(m.popup_sorted_errors[0].title, "Alpha");
    assert_eq!(m.popup_sorted_errors.len(), 2);
}

#[test]
fn a_received_error_restarts_the_search() {
    let mut m = ErrorManager::default();
    let first = m.receive_error(err(1, "First", ErrorSeverity::Error, None));
    let second = m.receive_error(err(2, "Second", ErrorSeverity::Error, None));
    assert!(second.generation > first.generation);
    assert_eq!(second.errors.len(), 2);
    // a late answer to the older search is still shown
    m.handle_event(run_search_job(&second));
    assert_eq!(m.popup_sorted_errors.len(), 2);
    m.handle_event(run_search_job(&first));
    assert_eq!(m.popup_sorted_errors.len(), 1);
}

#[test]
fn sorting_by_given_scores_is_stable() {
    let list = vec![
        err(1, "a", ErrorSeverity::Error, None),
        err(2, "b", ErrorSeverity::Error, None),
        err(3, "c", ErrorSeverity::Warning, None),
        err(4, "d", ErrorSeverity::Warning, None),
    ];
    let r = sort_by_scores(&list, &vec![1, 5, 1, 3]);
    assert_eq!(titles(&r), vec!["b", "d", "a", "c"]);
    let r = sort_by_scores(&list, &vec![0, 0, 0, 0]);
    assert_eq!(titles(&r), vec!["a", "b", "c", "d"]);
    let r = sort_by_scores(&list, &vec![-1, 0, i64::MAX, i64::MIN]);
    assert_eq!(titles(&r), vec!["c", "b", "a", "d"]);
}
