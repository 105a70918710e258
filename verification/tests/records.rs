use win_inet::ansi::INTERNET_BUFFERSA;
use win_inet::buffers::BuffersFields;
use win_inet::layout::buffers_record_size;
use win_inet::unicode::INTERNET_BUFFERSW;

fn expected_size() -> u32 {
    if std::mem::size_of::<usize>() == 8 {
        56
    } else {
        40
    }
}

fn empty() -> BuffersFields {
    BuffersFields {
        struct_size: expected_size(),
        next: 0,
        header: 0,
        headers_length: 0,
        headers_total: 0,
        buffer: 0,
        buffer_length: 0,
        buffer_total: 0,
        offset_low: 0,
        offset_high: 0,
    }
}

#[test]
fn record_size_follows_pointer_width() {
    assert_eq!(buffers_record_size(), expected_size());
}

#[test]
fn new_ansi_record_has_only_its_size() {
    let b = INTERNET_BUFFERSA::new();
    assert_eq!(b.fields(), empty());
}

#[test]
fn new_wide_record_has_only_its_size() {
    let b = INTERNET_BUFFERSW::new();
    assert_eq!(b.fields(), empty());
}

#[test]
fn ansi_content_len_sets_buffer_total_only() {
    let mut b = INTERNET_BUFFERSA::new();
    b.set_content_len(1234);
    let mut want = empty();
    want.buffer_total = 1234;
    assert_eq!(b.fields(), want);
    b.set_content_len(0);
    assert_eq!(b.fields(), empty());
}

#[test]
fn wide_content_len_sets_buffer_total_only() {
    let mut b = INTERNET_BUFFERSW::new();
    b.set_content_len(u32::MAX);
    let mut want = empty();
    want.buffer_total = u32::MAX;
    assert_eq!(b.fields(), want);
}
