use tracekit::arc::ArcReader;
use tracekit::cachelib::{CachelibConfig, CachelibReader};
use tracekit::csv::{CsvConfig, CsvReader};
use tracekit::key_only::{KeyOnlyReader, KeyOnlyWriter};
use tracekit::lirs::LirsReader;
use tracekit::{Event, EventSource, Op};

#[test]
fn test_arc_reader_basic() {
    let data = "1 12345 4096\n2 67890 8192\n3 12345 4096\n";
    let mut reader = ArcReader::new(data);

    let e1 = reader.next_event().unwrap();
    assert_eq!(e1.key, 12345);
    assert_eq!(e1.op, Op::Get);
    assert_eq!(e1.weight, Some(4096));

    let e2 = reader.next_event().unwrap();
    assert_eq!(e2.key, 67890);
    assert_eq!(e2.weight, Some(8192));

    let e3 = reader.next_event().unwrap();
    assert_eq!(e3.key, 12345);

    assert!(reader.next_event().is_none());
}

#[test]
fn test_arc_reader_no_size() {
    let data = "1 12345\n2 67890\n";
    let mut reader = ArcReader::new(data);

    let e1 = reader.next_event().unwrap();
    assert_eq!(e1.key, 12345);
    assert_eq!(e1.weight, None);

    let e2 = reader.next_event().unwrap();
    assert_eq!(e2.key, 67890);
    assert_eq!(e2.weight, None);
}

#[test]
fn test_arc_reader_skip_comments() {
    let data = "# Comment line\n1 12345 4096\n# Another comment\n2 67890 8192\n";
    let mut reader = ArcReader::new(data);

    let e1 = reader.next_event().unwrap();
    assert_eq!(e1.key, 12345);

    let e2 = reader.next_event().unwrap();
    assert_eq!(e2.key, 67890);

    assert!(reader.next_event().is_none());
}

#[test]
fn test_arc_reader_skip_invalid() {
    let data = "1 12345 4096\ninvalid line\n2 67890 8192\n";
    let mut reader = ArcReader::new(data);

    let e1 = reader.next_event().unwrap();
    assert_eq!(e1.key, 12345);

    let e2 = reader.next_event().unwrap();
    assert_eq!(e2.key, 67890);

    assert!(reader.next_event().is_none());
}

#[test]
fn test_cachelib_reader_with_header() {
    let data = "timestamp,key,key_size,value_size,client_id,op_count,ttl
1000,12345,5,1024,1,1,3600
2000,67890,5,2048,1,2,3600
";
    let mut reader = CachelibReader::with_defaults(data);

    let e1 = reader.next_event().unwrap();
    assert_eq!(e1.key, 12345);
    assert_eq!(e1.weight, Some(1024));
    assert_eq!(e1.ts, Some(1000));

    let e2 = reader.next_event().unwrap();
    assert_eq!(e2.key, 67890);
    assert_eq!(e2.weight, Some(2048));
    assert_eq!(e2.ts, Some(2000));

    assert!(reader.next_event().is_none());
}

#[test]
fn test_cachelib_reader_string_keys() {
    let data = "timestamp,key,key_size,value_size
1000,abc123,6,1024
2000,def456,6,2048
";
    let mut reader = CachelibReader::with_defaults(data);

    let e1 = reader.next_event().unwrap();
    // String keys are hashed to u64
    assert!(e1.key > 0);
    assert_eq!(e1.weight, Some(1024));

    let e2 = reader.next_event().unwrap();
    assert!(e2.key > 0);
    assert_eq!(e2.weight, Some(2048));

    assert!(reader.next_event().is_none());
}

#[test]
fn test_cachelib_reader_no_header() {
    let data = "1000,12345,5,1024\n2000,67890,5,2048\n";
    let config = CachelibConfig {
        has_header: false,
        ..Default::default()
    };
    let mut reader = CachelibReader::new(data, config);

    let e1 = reader.next_event().unwrap();
    assert_eq!(e1.key, 12345);
    assert_eq!(e1.weight, Some(1024));

    let e2 = reader.next_event().unwrap();
    assert_eq!(e2.key, 67890);

    assert!(reader.next_event().is_none());
}

#[test]
fn test_csv_reader_full() {
    let data = "12345,get,4096,1000\n67890,insert,8192,2000\n11111,delete,,3000\n";
    let mut reader = CsvReader::with_defaults(data);

    let e1 = reader.next_event().unwrap();
    assert_eq!(e1.key, 12345);
    assert_eq!(e1.op, Op::Get);
    assert_eq!(e1.weight, Some(4096));
    assert_eq!(e1.ts, Some(1000));

    let e2 = reader.next_event().unwrap();
    assert_eq!(e2.key, 67890);
    assert_eq!(e2.op, Op::Insert);

    let e3 = reader.next_event().unwrap();
    assert_eq!(e3.key, 11111);
    assert_eq!(e3.op, Op::Delete);
    assert_eq!(e3.weight, None);

    assert!(reader.next_event().is_none());
}

#[test]
fn test_csv_reader_key_only() {
    let data = "12345\n67890\n11111\n";
    let config = CsvConfig::key_only();
    let mut reader = CsvReader::new(data, config);

    let e1 = reader.next_event().unwrap();
    assert_eq!(e1.key, 12345);
    assert_eq!(e1.op, Op::Get);

    let e2 = reader.next_event().unwrap();
    assert_eq!(e2.key, 67890);

    let e3 = reader.next_event().unwrap();
    assert_eq!(e3.key, 11111);

    assert!(reader.next_event().is_none());
}

#[test]
fn test_csv_reader_with_header() {
    let data = "key,operation,size\n12345,read,4096\n67890,write,8192\n";
    let config = CsvConfig {
        has_header: true,
        ..Default::default()
    };
    let mut reader = CsvReader::new(data, config);

    let e1 = reader.next_event().unwrap();
    assert_eq!(e1.key, 12345);

    let e2 = reader.next_event().unwrap();
    assert_eq!(e2.key, 67890);

    assert!(reader.next_event().is_none());
}

#[test]
fn test_csv_reader_tsv() {
    let data = "12345\tget\t4096\n67890\tinsert\t8192\n";
    let config = CsvConfig::tsv();
    let mut reader = CsvReader::new(data, config);

    let e1 = reader.next_event().unwrap();
    assert_eq!(e1.key, 12345);
    assert_eq!(e1.weight, Some(4096));

    let e2 = reader.next_event().unwrap();
    assert_eq!(e2.key, 67890);
    assert_eq!(e2.op, Op::Insert);

    assert!(reader.next_event().is_none());
}

#[test]
fn test_key_only_reader() {
    let data = "123\n456\n789\n";
    let mut reader = KeyOnlyReader::new(data);

    assert_eq!(reader.next_event(), Some(Event::get(123)));
    assert_eq!(reader.next_event(), Some(Event::get(456)));
    assert_eq!(reader.next_event(), Some(Event::get(789)));
    assert_eq!(reader.next_event(), None);
}

#[test]
fn test_key_only_reader_skips_invalid() {
    let data = "123\ninvalid\n456\n\n789\n";
    let mut reader = KeyOnlyReader::new(data);

    assert_eq!(reader.next_event(), Some(Event::get(123)));
    assert_eq!(reader.next_event(), Some(Event::get(456)));
    assert_eq!(reader.next_event(), Some(Event::get(789)));
    assert_eq!(reader.next_event(), None);
}

#[test]
fn test_key_only_writer() {
    let mut writer = KeyOnlyWriter::new(Vec::new());
    writer.write_key(123);
    writer.write_key(456);
    writer.flush();
    let buffer = writer.into_inner();
    assert_eq!(String::from_utf8(buffer).unwrap(), "123\n456\n");
}

#[test]
fn test_lirs_reader_basic() {
    let data = "12345\n67890\n12345\n11111\n";
    let mut reader = LirsReader::new(data);

    let e1 = reader.next_event().unwrap();
    assert_eq!(e1.key, 12345);
    assert_eq!(e1.op, Op::Get);

    let e2 = reader.next_event().unwrap();
    assert_eq!(e2.key, 67890);

    let e3 = reader.next_event().unwrap();
    assert_eq!(e3.key, 12345);

    let e4 = reader.next_event().unwrap();
    assert_eq!(e4.key, 11111);

    assert!(reader.next_event().is_none());
}

#[test]
fn test_lirs_reader_skip_empty() {
    let data = "12345\n\n67890\n\n\n11111\n";
    let mut reader = LirsReader::new(data);

    let e1 = reader.next_event().unwrap();
    assert_eq!(e1.key, 12345);

    let e2 = reader.next_event().unwrap();
    assert_eq!(e2.key, 67890);

    let e3 = reader.next_event().unwrap();
    assert_eq!(e3.key, 11111);

    assert!(reader.next_event().is_none());
}

#[test]
fn test_lirs_reader_skip_comments() {
    let data = "# Comment\n12345\n# Another comment\n67890\n";
    let mut reader = LirsReader::new(data);

    let e1 = reader.next_event().unwrap();
    assert_eq!(e1.key, 12345);

    let e2 = reader.next_event().unwrap();
    assert_eq!(e2.key, 67890);

    assert!(reader.next_event().is_none());
}

#[test]
fn csv_operation_words_ignore_case() {
    let data = "1,WRITE\n2,Del\n3,put\n4,remove\n5,read\n6,\n";
    let mut reader = CsvReader::new(data, CsvConfig::default());
    let ops: Vec<Op> = std::iter::from_fn(|| reader.next_event()).map(|e| e.op).collect();
    assert_eq!(ops, vec![Op::Insert, Op::Delete, Op::Insert, Op::Delete, Op::Get, Op::Get]);
}

#[test]
fn key_parsing_follows_integer_syntax() {
    let data = "+7\n-7\n18446744073709551615\n18446744073709551616\n 42 \r\n0x10\n";
    let mut reader = KeyOnlyReader::new(data);
    assert_eq!(reader.next_event(), Some(Event::get(7)));
    assert_eq!(reader.next_event(), Some(Event::get(u64::MAX)));
    assert_eq!(reader.next_event(), Some(Event::get(42)));
    assert_eq!(reader.next_event(), None);
}

#[test]
fn cachelib_operations_and_short_lines() {
    let data = "1000,7,1,10,SET\n2000,8,1,20,2\n3000\n";
    let config = CachelibConfig { has_header: false, op_col: Some(4), ..Default::default() };
    let mut reader = CachelibReader::new(data, config);
    let e1 = reader.next_event().unwrap();
    assert_eq!((e1.key, e1.op, e1.weight, e1.ts), (7, Op::Insert, Some(10), Some(1000)));
    let e2 = reader.next_event().unwrap();
    assert_eq!((e2.key, e2.op), (8, Op::Delete));
    assert!(reader.next_event().is_none());
}

#[test]
fn readers_give_back_their_text() {
    let reader = LirsReader::new("1\n");
    assert_eq!(reader.inner(), "1\n");
    assert_eq!(reader.into_inner(), "1\n");
}

#[test]
fn key_only_writer_writes_event_keys() {
    let mut writer = KeyOnlyWriter::new(Vec::new());
    writer.write_event(&Event::insert(0));
    writer.write_event(&Event::get(u64::MAX));
    assert_eq!(writer.into_inner(), b"0\n18446744073709551615\n".to_vec());
}

#[test]
fn cachelib_string_keys_hash_consistently() {
    let data = "1,abc123,6,1\n2,def456,6,2\n3,abc123,6,3\n";
    let config = CachelibConfig { has_header: false, ..Default::default() };
    let mut reader = CachelibReader::new(data, config);
    let a = reader.next_event().unwrap().key;
    let b = reader.next_event().unwrap().key;
    let c = reader.next_event().unwrap().key;
    assert_eq!(a, c);
    assert_ne!(a, b);
}
