use j3devhelper::wide::{wide_filter, wide_null, wide_null_buffer_to_string};

#[test]
fn wide_null_encodes_utf16_with_terminator() {
    assert_eq!(wide_null(""), vec![0]);
    assert_eq!(wide_null("A가"), vec![0x41, 0xAC00, 0]);
    assert_eq!(wide_null("😀"), vec![0xD83D, 0xDE00, 0]);
    let expected: Vec<u16> = "C:\\작업 폴더".encode_utf16().chain(std::iter::once(0)).collect();
    assert_eq!(wide_null("C:\\작업 폴더"), expected);
}

#[test]
fn wide_filter_terminates_each_part_and_the_list() {
    assert_eq!(
        wide_filter(&vec!["Exe", "*.exe"]),
        vec![0x45, 0x78, 0x65, 0, 0x2A, 0x2E, 0x65, 0x78, 0x65, 0, 0]
    );
    assert_eq!(wide_filter(&vec![]), vec![0]);
}

#[test]
fn wide_buffers_decode_up_to_the_first_nul() {
    let mut buffer = wide_null("폴더");
    buffer.extend([0x41, 0x42, 0]);
    assert_eq!(wide_null_buffer_to_string(&buffer), "폴더");
    assert_eq!(wide_null_buffer_to_string(&vec![0x41, 0x42]), "AB");
    assert_eq!(wide_null_buffer_to_string(&vec![0xD800, 0x41, 0]), "\u{FFFD}A");
    assert_eq!(wide_null_buffer_to_string(&vec![]), "");
}

#[test]
fn wide_text_reads_back_and_matches_std_lossy_decoding() {
    for text in ["", "plain", "C:\\작업 폴더", "😀 and 🎉", "\u{FFFD}\u{10FFFF}\u{E000}"] {
        assert_eq!(wide_null_buffer_to_string(&wide_null(text)), text);
    }
    let odd: Vec<Vec<u16>> = vec![
        vec![0xD83D],
        vec![0xDE00, 0x41],
        vec![0xD83D, 0x41, 0xDE00],
        vec![0xD83D, 0xD83D, 0xDE00],
        vec![0x41, 0xDBFF, 0xDFFF, 0xDC00],
    ];
    for units in odd {
        let mut buffer = units.clone();
        buffer.push(0);
        buffer.push(0x42);
        assert_eq!(wide_null_buffer_to_string(&buffer), String::from_utf16_lossy(&units));
    }
}
