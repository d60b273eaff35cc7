use entity_store::wire::{
    copy_texts, put_flag, put_opt_u64, put_text, put_texts, put_u32, put_u64, read_flag,
    read_opt_u64, read_text, read_texts, read_u32, read_u64,
};

#[test]
fn u64_is_eight_little_endian_bytes() {
    let mut out = Vec::new();
    put_u64(&mut out, 0x0102030405060708);
    assert_eq!(out, vec![8, 7, 6, 5, 4, 3, 2, 1]);
    assert_eq!(read_u64(&out, 0), Some((0x0102030405060708, 8)));
}

#[test]
fn u32_is_four_little_endian_bytes() {
    let mut out = vec![9];
    put_u32(&mut out, 0x01020304);
    assert_eq!(out, vec![9, 4, 3, 2, 1]);
    assert_eq!(read_u32(&out, 1), Some((0x01020304, 5)));
    assert_eq!(read_u32(&out, 2), None);
}

#[test]
fn a_number_cut_short_is_not_read() {
    assert_eq!(read_u64(&[1, 2, 3, 4, 5, 6, 7], 0), None);
    assert_eq!(read_u64(&[0; 8], 1), None);
    assert_eq!(read_u64(&[], 0), None);
    assert_eq!(read_u32(&[1, 2, 3], 0), None);
}

#[test]
fn flag_is_one_byte_zero_or_one() {
    let mut out = Vec::new();
    put_flag(&mut out, true);
    put_flag(&mut out, false);
    assert_eq!(out, vec![1, 0]);
    assert_eq!(read_flag(&out, 0), Some((true, 1)));
    assert_eq!(read_flag(&out, 1), Some((false, 2)));
    assert_eq!(read_flag(&out, 2), None);
    assert_eq!(read_flag(&[2], 0), None);
    assert_eq!(read_flag(&[255], 0), None);
}

#[test]
fn text_is_length_then_utf8() {
    let mut out = Vec::new();
    put_text(&mut out, "hé");
    assert_eq!(out, vec![3, 0, 0, 0, 0, 0, 0, 0, b'h', 0xc3, 0xa9]);
    assert_eq!(read_text(&out, 0), Some(("hé".to_string(), 11)));
}

#[test]
fn empty_text_is_its_length_alone() {
    let mut out = Vec::new();
    put_text(&mut out, "");
    assert_eq!(out, vec![0; 8]);
    assert_eq!(read_text(&out, 0), Some((String::new(), 8)));
}

#[test]
fn text_that_is_not_utf8_is_not_read() {
    assert_eq!(read_text(&[1, 0, 0, 0, 0, 0, 0, 0, 0xff], 0), None);
    assert_eq!(read_text(&[2, 0, 0, 0, 0, 0, 0, 0, 0xc3, b'a'], 0), None);
    // An overlong form of '/', and a surrogate.
    assert_eq!(read_text(&[2, 0, 0, 0, 0, 0, 0, 0, 0xc0, 0xaf], 0), None);
    assert_eq!(read_text(&[3, 0, 0, 0, 0, 0, 0, 0, 0xed, 0xa0, 0x80], 0), None);
}

#[test]
fn text_whose_length_runs_past_the_end_is_not_read() {
    assert_eq!(read_text(&[2, 0, 0, 0, 0, 0, 0, 0, b'a'], 0), None);
    assert_eq!(read_text(&[255, 255, 255, 255, 255, 255, 255, 255, b'a'], 0), None);
    assert_eq!(read_text(&[1, 0, 0, 0], 0), None);
}

#[test]
fn text_is_read_where_it_starts() {
    let mut out = vec![7, 7];
    put_text(&mut out, "ab");
    put_text(&mut out, "c");
    assert_eq!(read_text(&out, 2), Some(("ab".to_string(), 12)));
    assert_eq!(read_text(&out, 12), Some(("c".to_string(), 21)));
}

#[test]
fn optional_number_is_a_flag_then_the_number() {
    let mut out = Vec::new();
    put_opt_u64(&mut out, None);
    put_opt_u64(&mut out, Some(3));
    assert_eq!(out, vec![0, 1, 3, 0, 0, 0, 0, 0, 0, 0]);
    assert_eq!(read_opt_u64(&out, 0), Some((None, 1)));
    assert_eq!(read_opt_u64(&out, 1), Some((Some(3), 10)));
    assert_eq!(read_opt_u64(&[1, 3, 0, 0], 0), None);
    assert_eq!(read_opt_u64(&[4], 0), None);
}

#[test]
fn texts_are_their_count_then_each_text() {
    let mut out = Vec::new();
    let list = vec!["a".to_string(), "".to_string(), "bc".to_string()];
    put_texts(&mut out, &list);
    let expected: Vec<u8> = vec![
        3, 0, 0, 0, 0, 0, 0, 0, // count
        1, 0, 0, 0, 0, 0, 0, 0, b'a', //
        0, 0, 0, 0, 0, 0, 0, 0, //
        2, 0, 0, 0, 0, 0, 0, 0, b'b', b'c',
    ];
    assert_eq!(out, expected);
    assert_eq!(read_texts(&out, 0), Some((list, 35)));
}

#[test]
fn no_texts_are_a_count_of_zero() {
    let mut out = Vec::new();
    put_texts(&mut out, &Vec::new());
    assert_eq!(out, vec![0; 8]);
    assert_eq!(read_texts(&out, 0), Some((Vec::new(), 8)));
}

#[test]
fn texts_fewer_than_their_count_are_not_read() {
    let mut out = Vec::new();
    put_u64(&mut out, 2);
    put_text(&mut out, "a");
    assert_eq!(read_texts(&out, 0), None);
    let mut out = Vec::new();
    put_u64(&mut out, u64::MAX);
    assert_eq!(read_texts(&out, 0), None);
}

#[test]
fn a_copy_of_texts_has_the_same_texts() {
    let list = vec!["x".to_string(), "yé".to_string()];
    assert_eq!(copy_texts(&list), list);
    assert_eq!(copy_texts(&Vec::new()), Vec::<String>::new());
}
