use py_judge::compare::complete_match;
use py_judge::evaluate::{EvalError, Evaluation, Fixtures, RunOutcome, Status, Step};
use py_judge::fixtures::{get_expected_input, get_expected_output, FixtureError, FixtureSource};

fn lines(v: &[&str]) -> Vec<String> {
    v.iter().map(|s| s.to_string()).collect()
}

fn fixtures(inputs: &[&str], outputs: &[&[&str]]) -> Fixtures {
    Fixtures { inputs: lines(inputs), outputs: outputs.iter().map(|o| lines(o)).collect() }
}

/// Runs an evaluation to its end, taking the outcome of each run from `runs`.
fn evaluate(fx: &Fixtures, runs: &[RunOutcome]) -> Result<(Status, String), EvalError> {
    let mut ev = Evaluation::new();
    let mut taken = 0usize;
    loop {
        match ev.step(fx) {
            Step::Run(i) => {
                assert_eq!(i, taken);
                let outcome = match &runs[i] {
                    RunOutcome::Exited(b) => RunOutcome::Exited(b.clone()),
                    RunOutcome::Failed(m) => RunOutcome::Failed(m.clone()),
                };
                taken += 1;
                ev = ev.advance(fx, outcome)?;
            }
            Step::Finished(v) => return Ok((v.status, v.detail)),
        }
    }
}

fn exited(s: &str) -> RunOutcome {
    RunOutcome::Exited(s.as_bytes().to_vec())
}

#[test]
fn matching_lines_pass() {
    let (ok, detail) = complete_match(lines(&["1", "2"]), &lines(&["1", "2"]));
    assert!(ok);
    assert_eq!(detail, "");
}

#[test]
fn lines_are_compared_trimmed() {
    let (ok, detail) = complete_match(lines(&["  7 ", "\tx"]), &lines(&["7", "x  "]));
    assert!(ok);
    assert_eq!(detail, "");
}

#[test]
fn inner_whitespace_is_significant() {
    let (ok, _) = complete_match(lines(&["1  2"]), &lines(&["1 2"]));
    assert!(!ok);
}

#[test]
fn first_differing_line_is_reported() {
    let (ok, detail) = complete_match(lines(&["8"]), &lines(&["7"]));
    assert!(!ok);
    assert_eq!(detail, "行 1 が一致しません: 実行結果: '8', 期待される出力: '7'");
}

#[test]
fn only_the_first_difference_is_reported() {
    let (ok, detail) = complete_match(lines(&["a", " b", "c"]), &lines(&["a", "x", "y"]));
    assert!(!ok);
    assert_eq!(detail, "行 2 が一致しません: 実行結果: ' b', 期待される出力: 'x'");
}

#[test]
fn line_count_mismatch_names_both_counts() {
    let (ok, detail) = complete_match(lines(&["7"]), &lines(&["7", "8"]));
    assert!(!ok);
    assert_eq!(detail, "行数が一致しません: 実行結果の行数: 1, 期待される出力の行数: 2");
}

#[test]
fn line_count_mismatch_ignores_content() {
    let produced: Vec<String> = (0..12).map(|i| i.to_string()).collect();
    let (ok, detail) = complete_match(produced, &lines(&[]));
    assert!(!ok);
    assert_eq!(detail, "行数が一致しません: 実行結果の行数: 12, 期待される出力の行数: 0");
}

#[test]
fn empty_outputs_match() {
    let (ok, detail) = complete_match(Vec::new(), &Vec::new());
    assert!(ok);
    assert_eq!(detail, "");
}

#[test]
fn missing_source_gives_no_fixtures() {
    assert_eq!(get_expected_input(FixtureSource::NotFound).ok().unwrap().len(), 0);
    assert_eq!(get_expected_output(FixtureSource::NotFound).ok().unwrap().len(), 0);
}

#[test]
fn text_file_is_fixture_zero() {
    let v = get_expected_input(FixtureSource::TextFile("3\n4\n".to_string())).ok().unwrap();
    assert_eq!(v, vec!["3\n4\n".to_string()]);
    let o = get_expected_output(FixtureSource::TextFile("7\r\n8\n".to_string())).ok().unwrap();
    assert_eq!(o, vec![lines(&["7", "8"])]);
}

#[test]
fn other_file_is_refused() {
    assert!(matches!(get_expected_input(FixtureSource::OtherFile), Err(FixtureError::InvalidFixtureSource)));
    assert!(matches!(get_expected_output(FixtureSource::OtherFile), Err(FixtureError::InvalidFixtureSource)));
}

#[test]
fn directory_keeps_traversal_order() {
    let contents = lines(&["b\n", "a\n", ""]);
    let v = get_expected_input(FixtureSource::Directory(contents.clone())).ok().unwrap();
    assert_eq!(v, contents);
    let o = get_expected_output(FixtureSource::Directory(contents)).ok().unwrap();
    assert_eq!(o, vec![lines(&["b"]), lines(&["a"]), lines(&[])]);
}

#[test]
fn echoed_sum_passes() {
    let fx = fixtures(&["3\n4\n"], &[&["7"]]);
    let (status, detail) = evaluate(&fx, &[exited("7\n")]).ok().unwrap();
    assert_eq!(status, Status::Pass);
    assert_eq!(detail, "");
    assert_eq!(status.as_str(), "PASS");
}

#[test]
fn wrong_answer_fails() {
    let fx = fixtures(&["3\n4\n"], &[&["7"]]);
    let (status, detail) = evaluate(&fx, &[exited("8")]).ok().unwrap();
    assert_eq!(status, Status::Fail);
    assert_eq!(detail, "行 1 が一致しません: 実行結果: '8', 期待される出力: '7'");
    assert_eq!(status.as_str(), "FAIL");
}

#[test]
fn too_few_lines_fail() {
    let fx = fixtures(&["x"], &[&["7", "8"]]);
    let (status, detail) = evaluate(&fx, &[exited("7\n")]).ok().unwrap();
    assert_eq!(status, Status::Fail);
    assert_eq!(detail, "行数が一致しません: 実行結果の行数: 1, 期待される出力の行数: 2");
}

#[test]
fn output_is_trimmed_before_lines_are_cut() {
    let fx = fixtures(&["x"], &[&["1", "2"]]);
    let (status, _) = evaluate(&fx, &[exited("\n\n 1\r\n2 \n\n")]).ok().unwrap();
    assert_eq!(status, Status::Pass);
}

#[test]
fn invalid_bytes_are_replaced() {
    let fx = fixtures(&["x"], &[&["a\u{FFFD}"]]);
    let (status, _) = evaluate(&fx, &[RunOutcome::Exited(vec![b'a', 0xff])]).ok().unwrap();
    assert_eq!(status, Status::Pass);
}

#[test]
fn missing_executable_is_an_error() {
    let fx = fixtures(&["3\n4\n"], &[&["7"]]);
    let err = evaluate(&fx, &[RunOutcome::Failed("Pythonプロセスの実行に失敗しました".to_string())])
        .err()
        .unwrap();
    assert!(matches!(err, EvalError::ExecutionFailed(_)));
    let v = err.verdict();
    assert_eq!(v.status, Status::Error);
    assert_eq!(v.status.as_str(), "ERROR");
    assert_eq!(v.detail, "実行エラー: Pythonプロセスの実行に失敗しました");
}

#[test]
fn missing_expected_output_is_an_error() {
    let fx = fixtures(&["1", "2"], &[&["1"]]);
    let err = evaluate(&fx, &[exited("1"), exited("2")]).err().unwrap();
    assert!(matches!(err, EvalError::MissingExpectedOutput));
    assert_eq!(err.verdict().detail, "実行エラー: 期待される標準出力例が見つかりません");
}

#[test]
fn last_fixture_decides() {
    let fx = fixtures(&["a", "b"], &[&["1"], &["2"]]);
    let (status, _) = evaluate(&fx, &[exited("0"), exited("2")]).ok().unwrap();
    assert_eq!(status, Status::Pass);
    let (status, detail) = evaluate(&fx, &[exited("1"), exited("3")]).ok().unwrap();
    assert_eq!(status, Status::Fail);
    assert_eq!(detail, "行 1 が一致しません: 実行結果: '3', 期待される出力: '2'");
}

#[test]
fn no_fixtures_pass() {
    let fx = fixtures(&[], &[]);
    let (status, detail) = evaluate(&fx, &[]).ok().unwrap();
    assert_eq!(status, Status::Pass);
    assert_eq!(detail, "");
}

#[test]
fn repeated_evaluation_is_stable() {
    let fx = fixtures(&["a", "b"], &[&["1"], &["2"]]);
    let runs = [exited("1"), exited("5")];
    let first = evaluate(&fx, &runs).ok().unwrap();
    let second = evaluate(&fx, &runs).ok().unwrap();
    assert_eq!(first, second);
}
