use j3devhelper::geometry::Point;
use j3devhelper::message_params::{
    high_word, low_word, point_from_lparam, signed_high_word, signed_high_word_from_wparam,
    signed_low_word,
};

#[test]
fn words_of_wparam_are_split_at_bit_sixteen() {
    assert_eq!(low_word(0x0012_3456), 0x3456);
    assert_eq!(high_word(0x0012_3456), 0x0012);
    assert_eq!(low_word(0xffff_ffff), 0xffff);
    assert_eq!(high_word(0xffff_ffff), 0xffff);
}

#[test]
fn wheel_delta_is_the_signed_high_word() {
    assert_eq!(signed_high_word_from_wparam(0x0078_0000), 120);
    assert_eq!(signed_high_word_from_wparam(0xff88_0000), -120);
    assert_eq!(signed_high_word_from_wparam(0x8000_0000), -32768);
}

#[test]
fn mouse_points_keep_their_sign() {
    assert_eq!(point_from_lparam(0x000a_fffb), Point { x: -5, y: 10 });
    assert_eq!(point_from_lparam(0xfffe_0003u32 as i32 as isize), Point { x: 3, y: -2 });
    assert_eq!(point_from_lparam(0xfffe_0003u32 as isize), Point { x: 3, y: -2 });
    assert_eq!(point_from_lparam(-1), Point { x: -1, y: -1 });
    assert_eq!(signed_low_word(0x7fff), 32767);
    assert_eq!(signed_high_word(0x7fff_0000), 32767);
}
