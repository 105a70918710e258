use win_inet::handle::{
    accept_handle, call_succeeded, callback_result, close_steps, CloseStep, HandleKind,
};
use win_inet::receive::{received_text, RECV_BUFFER_LEN};
use win_inet::request::{poll_outcome, request_flags, PollOutcome, ReqState, RequestCall};
use win_inet::{
    ERROR_IO_PENDING, INTERNET_FLAG_NO_CACHE_WRITE, INTERNET_FLAG_RELOAD, INTERNET_FLAG_SECURE,
};

#[test]
fn flags_without_tls() {
    assert_eq!(request_flags(false), 0x8400_0000);
    assert_eq!(request_flags(false), INTERNET_FLAG_RELOAD | INTERNET_FLAG_NO_CACHE_WRITE);
}

#[test]
fn flags_with_tls() {
    assert_eq!(request_flags(true), 0x8480_0000);
    assert_eq!(request_flags(true) & INTERNET_FLAG_SECURE, INTERNET_FLAG_SECURE);
}

#[test]
fn null_handle_is_refused() {
    assert_eq!(accept_handle(0), None);
    assert_eq!(accept_handle(0x1234), Some(0x1234));
}

#[test]
fn invalid_callback_is_refused() {
    assert_eq!(callback_result(-1), Err(()));
    assert_eq!(callback_result(0), Ok(()));
    assert_eq!(callback_result(0x7fff_0000), Ok(()));
}

#[test]
fn false_is_failure() {
    assert!(!call_succeeded(0));
    assert!(call_succeeded(1));
    assert!(call_succeeded(-1));
}

#[test]
fn poll_calls() {
    assert_eq!(ReqState::Send.poll_call(), RequestCall::SendRequestEx);
    assert_eq!(ReqState::End.poll_call(), RequestCall::EndRequest);
}

#[test]
fn poll_outcomes() {
    assert_eq!(poll_outcome(1, None), PollOutcome::Complete);
    assert_eq!(poll_outcome(1, Some(ERROR_IO_PENDING)), PollOutcome::Complete);
    assert_eq!(poll_outcome(0, Some(997)), PollOutcome::Pending);
    assert_eq!(poll_outcome(0, Some(5)), PollOutcome::Failed);
    assert_eq!(poll_outcome(0, None), PollOutcome::Failed);
}

#[test]
fn closing_steps() {
    assert_eq!(close_steps(HandleKind::Session, 7), vec![CloseStep::Close(7)]);
    assert_eq!(close_steps(HandleKind::Session, 0), vec![CloseStep::Close(0)]);
    assert_eq!(close_steps(HandleKind::Connection, 7), vec![CloseStep::Close(7)]);
    assert_eq!(close_steps(HandleKind::Connection, 0), vec![]);
    assert_eq!(
        close_steps(HandleKind::Request, 9),
        vec![CloseStep::ClearCallback(9), CloseStep::Close(9)]
    );
    assert_eq!(close_steps(HandleKind::Request, 0), vec![]);
}

#[test]
fn received_text_takes_the_read_prefix() {
    let mut buf = vec![0u8; RECV_BUFFER_LEN];
    let body = "HTTP/1.1 200 OK\r\n";
    buf[..body.len()].copy_from_slice(body.as_bytes());
    assert_eq!(received_text(&buf, body.len() as u32), body);
    assert_eq!(received_text(&buf, 4), "HTTP");
    assert_eq!(received_text(&buf, 0), "");
}

#[test]
fn received_text_decodes_utf8_and_replaces_invalid_bytes() {
    let buf = [b'h', 0xc3, 0xa9, 0xff, b'!'];
    assert_eq!(received_text(&buf, 3), "h\u{e9}");
    assert_eq!(received_text(&buf, 5), "h\u{e9}\u{fffd}!");
    assert_eq!(received_text(&buf, 2), "h\u{fffd}");
}
