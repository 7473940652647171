use temp_test::result::{STDERR_LABEL, STDOUT_LABEL};
use temp_test::CommandResult;

fn outcome(code: Option<i32>, out: &str, err: &str) -> CommandResult {
    CommandResult::new(code, out.as_bytes().to_vec(), err.as_bytes().to_vec())
}

#[test]
fn zero_exit_is_success() {
    let r = outcome(Some(0), "", "");
    assert!(r.is_success());
    assert!(!r.is_err());
    assert_eq!(r.code(), 0);
}

#[test]
fn nonzero_exit_is_failure() {
    for code in [1, 2, 101, 255, -1, i32::MIN, i32::MAX] {
        let r = outcome(Some(code), "", "");
        assert!(!r.is_success());
        assert!(r.is_err());
        assert_eq!(r.code(), code);
    }
}

#[test]
fn exit_without_code_is_failure() {
    let r = outcome(None, "", "");
    assert!(!r.is_success());
    assert!(r.is_err());
    assert_eq!(r.exit_code(), None);
}

#[test]
fn output_is_decoded_as_utf8() {
    let r = outcome(Some(0), "hello\n", "warn: caf\u{e9} \u{1f980}\n");
    assert_eq!(r.stdout(), "hello\n");
    assert_eq!(r.stderr(), "warn: caf\u{e9} \u{1f980}\n");
}

#[test]
fn raw_bytes_are_kept() {
    let r = CommandResult::new(Some(3), vec![0xff, 0x00, 0x41], vec![0xc3]);
    assert_eq!(r.stdout_bytes(), &[0xff, 0x00, 0x41]);
    assert_eq!(r.stderr_bytes(), &[0xc3]);
    assert_eq!(r.exit_code(), Some(3));
}

#[test]
fn empty_output_decodes_to_empty_text() {
    let r = outcome(Some(0), "", "");
    assert_eq!(r.stdout(), "");
    assert_eq!(r.stderr(), "");
}

#[test]
fn result_of_success_is_ok_with_the_same_outcome() {
    let r = outcome(Some(0), "out", "err").result();
    let inner = r.ok().unwrap();
    assert_eq!(inner.stdout(), "out");
    assert_eq!(inner.stderr(), "err");
    assert_eq!(inner.code(), 0);
}

#[test]
fn result_of_failure_is_err_with_the_same_outcome() {
    let r = outcome(Some(7), "partial", "boom").result();
    let inner = r.err().unwrap();
    assert_eq!(inner.stdout(), "partial");
    assert_eq!(inner.stderr(), "boom");
    assert_eq!(inner.code(), 7);
    assert!(inner.is_err());
}

#[test]
fn result_of_signal_exit_is_err() {
    let r = outcome(None, "", "killed").result();
    let inner = r.err().unwrap();
    assert_eq!(inner.exit_code(), None);
    assert_eq!(inner.stderr(), "killed");
}

#[test]
fn render_labels_both_streams() {
    let r = outcome(Some(1), "line one\n", "oops");
    assert_eq!(r.render(), "stdout: line one\n\nstderr: oops");
    assert_eq!(outcome(Some(0), "", "").render(), "stdout: \nstderr: ");
}

#[test]
fn render_labels() {
    assert_eq!(STDOUT_LABEL, "stdout: ");
    assert_eq!(STDERR_LABEL, "\nstderr: ");
}
