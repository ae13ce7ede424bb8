use event_notification::store::{
    can_frame, encode_lines, file_name, file_path, split_lines, EventStore,
};
use event_notification::text::{decimal, unsigned_decimal};

fn lines(list: &[&str]) -> Vec<Vec<u8>> {
    list.iter().map(|l| l.as_bytes().to_vec()).collect()
}

#[test]
fn decimal_writes_integers() {
    assert_eq!(decimal(0), "0");
    assert_eq!(decimal(7), "7");
    assert_eq!(decimal(10), "10");
    assert_eq!(decimal(1_700_000_000), "1700000000");
    assert_eq!(decimal(-1), "-1");
    assert_eq!(decimal(-120), "-120");
    assert_eq!(decimal(i64::MAX), "9223372036854775807");
    assert_eq!(decimal(i64::MIN), "-9223372036854775808");
    assert_eq!(unsigned_decimal(u64::MAX), "18446744073709551615");
    assert_eq!(unsigned_decimal(0), "0");
    assert_eq!(unsigned_decimal(1000), "1000");
    for n in [-1000i64, -99, -10, -9, 9, 10, 11, 99, 100, 101, 12345, 1 << 40] {
        assert_eq!(decimal(n), n.to_string());
    }
}

#[test]
fn file_name_holds_the_unix_seconds() {
    assert_eq!(file_name(1_700_000_000), "events_1700000000.jsonl");
    assert_eq!(file_name(0), "events_0.jsonl");
    assert_eq!(file_name(-5), "events_-5.jsonl");
    assert_eq!(file_path("./events", 1_700_000_000), "./events/events_1700000000.jsonl");
    assert_eq!(file_path("", 1), "/events_1.jsonl");
}

#[test]
fn encode_ends_each_line_with_a_newline() {
    assert_eq!(encode_lines(&lines(&[])), b"".to_vec());
    assert_eq!(encode_lines(&lines(&["a"])), b"a\n".to_vec());
    assert_eq!(encode_lines(&lines(&["{\"a\":1}", "{\"b\":2}"])), b"{\"a\":1}\n{\"b\":2}\n".to_vec());
    assert_eq!(encode_lines(&lines(&["", ""])), b"\n\n".to_vec());
}

#[test]
fn split_reads_lines() {
    assert_eq!(split_lines(b""), lines(&[]));
    assert_eq!(split_lines(b"a\n"), lines(&["a"]));
    assert_eq!(split_lines(b"a"), lines(&["a"]));
    assert_eq!(split_lines(b"a\nb"), lines(&["a", "b"]));
    assert_eq!(split_lines(b"a\nb\n"), lines(&["a", "b"]));
    assert_eq!(split_lines(b"\n"), lines(&[""]));
    assert_eq!(split_lines(b"\n\n"), lines(&["", ""]));
    assert_eq!(split_lines(b"a\n\nb\n"), lines(&["a", "", "b"]));
}

#[test]
fn split_drops_a_carriage_return_before_the_newline() {
    assert_eq!(split_lines(b"a\r\nb\r\n"), lines(&["a", "b"]));
    assert_eq!(split_lines(b"\r\n"), lines(&[""]));
    assert_eq!(split_lines(b"a\r\r\n"), lines(&["a\r"]));
    assert_eq!(split_lines(b"a\rb\n"), lines(&["a\rb"]));
    assert_eq!(split_lines(b"a\r"), lines(&["a\r"]));
}

#[test]
fn split_inverts_encode() {
    let cases: Vec<Vec<Vec<u8>>> = vec![
        lines(&[]),
        lines(&["{\"id\":\"1\"}"]),
        lines(&["{\"id\":\"1\"}", "{\"id\":\"2\"}", "{\"id\":\"3\"}"]),
        lines(&["", "x", ""]),
        lines(&["a\rb", "\rc"]),
        vec![vec![0u8, 255, 9, 11, 12, 14], vec![226, 130, 172]],
    ];
    for case in cases {
        assert_eq!(split_lines(&encode_lines(&case)), case);
    }
}

#[test]
fn files_are_read_one_after_the_other() {
    let first = encode_lines(&lines(&["e1", "e2"]));
    let second = encode_lines(&lines(&["e3"]));
    let mut all = split_lines(&first);
    all.extend(split_lines(&second));
    assert_eq!(all, lines(&["e1", "e2", "e3"]));
}

#[test]
fn can_frame_refuses_line_breaks() {
    assert!(can_frame(b""));
    assert!(can_frame(b"{\"a\":1}"));
    assert!(can_frame(b"a\rb"));
    assert!(!can_frame(b"a\nb"));
    assert!(!can_frame(b"\n"));
    assert!(!can_frame(b"a\n"));
    assert!(!can_frame(b"a\r"));
    assert!(!can_frame(b"\r"));
}

#[test]
fn unframable_lines_do_not_come_back() {
    assert_eq!(split_lines(&encode_lines(&lines(&["a\nb"]))), lines(&["a", "b"]));
    assert_eq!(split_lines(&encode_lines(&lines(&["a\r"]))), lines(&["a"]));
}

#[test]
fn store_saves_to_the_file_of_the_second() {
    let store = EventStore::new("./events");
    assert_eq!(store.path, "./events");
    let (path, bytes) = store.save_events(&lines(&["{\"id\":1}", "{\"id\":2}"]), 1_700_000_000);
    assert_eq!(path, "./events/events_1700000000.jsonl");
    assert_eq!(bytes, b"{\"id\":1}\n{\"id\":2}\n".to_vec());
    let (path, bytes) = store.save_events(&lines(&[]), 7);
    assert_eq!(path, "./events/events_7.jsonl");
    assert!(bytes.is_empty());
}

#[test]
fn store_loads_what_it_saved() {
    let store = EventStore::new("dir");
    let batch = lines(&["{\"id\":1}", "{\"id\":2}"]);
    let (_, bytes) = store.save_events(&batch, 1);
    assert_eq!(store.load_events(&vec![bytes.clone()]), batch);
    let (_, more) = store.save_events(&lines(&["{\"id\":3}"]), 2);
    assert_eq!(
        store.load_events(&vec![bytes, more]),
        lines(&["{\"id\":1}", "{\"id\":2}", "{\"id\":3}"])
    );
    assert!(store.load_events(&Vec::new()).is_empty());
    assert!(store.load_events(&vec![Vec::new(), Vec::new()]).is_empty());
}
