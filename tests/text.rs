use pikemon::text::{encode, encode_char, Encoder, LINE_DOWN, QUESTION_MARK, SPACE};

#[test]
fn encode_hello() {
    assert_eq!(encode("HELLO"), vec![0x87, 0x84, 0x8B, 0x8B, 0x8E]);
}

#[test]
fn encode_ranges() {
    assert_eq!(encode_char('A'), 0x80);
    assert_eq!(encode_char('Z'), 0x99);
    assert_eq!(encode_char('a'), 0xA0);
    assert_eq!(encode_char('z'), 0xB9);
    assert_eq!(encode_char('0'), 0xF6);
    assert_eq!(encode_char('9'), 0xFF);
}

#[test]
fn encode_punctuation() {
    let expected: Vec<u8> = vec![
        0x8A, 0x8B, 0x8C, 0x8D, 0x8E, 0x8F, 0xE0, 0xE3, 0xE6, 0xE7, 0xE8, 0xF3, 0xF4,
    ];
    assert_eq!(encode("():;[]'-?!./,"), expected);
    assert_eq!(encode_char(' '), SPACE);
    assert_eq!(encode_char('\n'), LINE_DOWN);
}

#[test]
fn encode_unknown_is_question_mark() {
    assert_eq!(encode_char('#'), 0xE6);
    assert_eq!(encode_char('é'), QUESTION_MARK);
    assert_eq!(encode_char('~'), 0xE6);
}

#[test]
fn encode_empty() {
    assert!(encode("").is_empty());
}

#[test]
fn encoder_steps_one_byte_per_char() {
    let mut e = Encoder::new("Hi!");
    assert_eq!(e.next(), Some(0x87));
    assert_eq!(e.next(), Some(0xA8));
    assert_eq!(e.next(), Some(0xE7));
    assert_eq!(e.next(), None);
    assert_eq!(e.next(), None);
}

#[test]
fn encoder_restarts() {
    let a = Encoder::new("PLAYER 1").collect_bytes();
    let b = Encoder::new("PLAYER 1").collect_bytes();
    assert_eq!(a, b);
    assert_eq!(a, vec![0x8F, 0x8B, 0x80, 0x98, 0x84, 0x91, 0x7F, 0xF7]);
}
