use gchess::poller::{keep_decoded, JsonPoller, Packet};

#[derive(Debug, Eq, PartialEq)]
struct TestStruct {
    hi: String,
}

fn decode(bytes: &[u8]) -> Option<TestStruct> {
    let value: serde_json::Value = serde_json::from_slice(bytes).ok()?;
    let object = value.as_object()?;
    Some(TestStruct { hi: object.get("hi")?.as_str()?.to_string() })
}

fn feed_decoded(
    poller: &mut JsonPoller,
    data: &[u8],
    into: &mut Vec<Packet<TestStruct, TestStruct>>,
) {
    let mut raw = Vec::new();
    poller.feed(data, &mut raw);
    let attempts = raw
        .into_iter()
        .map(|packet| match packet {
            Packet::Handshake(bytes) => Packet::Handshake(decode(&bytes)),
            Packet::Data(bytes) => Packet::Data(decode(&bytes)),
        })
        .collect();
    into.extend(keep_decoded(attempts));
}

#[test]
pub fn json_poller() {
    let mut poller = JsonPoller::new();
    let mut into = vec![];
    feed_decoded(&mut poller, b"{\"hi\": \"", &mut into);
    assert_eq!(into, vec![]);
    feed_decoded(&mut poller, b"s\\\\t\\\"r\" }{\"hi\": \"hey\"}", &mut into);
    assert_eq!(
        into,
        vec![
            Packet::Handshake(TestStruct { hi: "s\\t\"r".into() }),
            Packet::Data(TestStruct { hi: "hey".into() })
        ]
    );
    into.clear();
    feed_decoded(&mut poller, b" ", &mut into);
    assert_eq!(into, vec![]);
}

#[test]
pub fn json_poller_empty() {
    let mut poller = JsonPoller::new();
    let mut into = vec![];
    feed_decoded(&mut poller, b"{\"hi\": \"there\"}", &mut into);
    assert_eq!(into, vec![Packet::Handshake(TestStruct { hi: "there".into() })]);
    into.clear();
    feed_decoded(&mut poller, b"", &mut into);
    assert_eq!(into, vec![]);
}

#[test]
fn raw_documents_end_with_their_closing_brace() {
    let mut poller = JsonPoller::new();
    let mut into = Vec::new();
    poller.feed(b"{\"a\": 1}{\"b\": {\"c\": 2}} {\"d\"", &mut into);
    assert_eq!(
        into,
        vec![
            Packet::Handshake(b"{\"a\": 1}".to_vec()),
            Packet::Data(b"{\"b\": {\"c\": 2}}".to_vec()),
        ]
    );
    assert_eq!(poller.pending_len(), 5);
    assert_eq!(poller.handshake_complete(), true);
    poller.feed(b": 3}", &mut into);
    assert_eq!(into.len(), 3);
    assert_eq!(into[2], Packet::Data(b" {\"d\": 3}".to_vec()));
    assert_eq!(poller.pending_len(), 0);
}

#[test]
fn first_document_is_the_handshake_whatever_the_chunks() {
    let stream: &[u8] = b"{\"hi\": \"one\"}{\"hi\": \"t{w}o\"}\n{\"hi\": \"th\\\"ree\"}";
    let expected = vec![
        Packet::Handshake(TestStruct { hi: "one".into() }),
        Packet::Data(TestStruct { hi: "t{w}o".into() }),
        Packet::Data(TestStruct { hi: "th\"ree".into() }),
    ];
    for size in 1..=stream.len() {
        let mut poller = JsonPoller::new();
        let mut into = vec![];
        for chunk in stream.chunks(size) {
            feed_decoded(&mut poller, chunk, &mut into);
        }
        assert_eq!(into, expected);
        assert_eq!(poller.pending_len(), 0);
    }
}

#[test]
fn whitespace_and_nothing_give_no_packets() {
    let mut poller = JsonPoller::new();
    let mut into = Vec::new();
    poller.feed(b"", &mut into);
    poller.feed(b"  \n\t \r", &mut into);
    poller.feed(b"", &mut into);
    assert_eq!(into, vec![]);
    assert_eq!(poller.pending_len(), 6);
    assert_eq!(poller.handshake_complete(), false);
}

#[test]
fn new_poller_is_idle() {
    let poller = JsonPoller::new();
    assert_eq!(poller.pending_len(), 0);
    assert_eq!(poller.handshake_complete(), false);
}

#[test]
fn undecodable_document_is_dropped_alone() {
    let mut poller = JsonPoller::new();
    let mut into = vec![];
    feed_decoded(&mut poller, b"{\"hi\": \"a\"}{\"other\": 1}{\"hi\": \"b\"}", &mut into);
    assert_eq!(
        into,
        vec![
            Packet::Handshake(TestStruct { hi: "a".into() }),
            Packet::Data(TestStruct { hi: "b".into() }),
        ]
    );
}

#[test]
fn undecodable_first_document_still_counts_as_the_handshake() {
    let mut poller = JsonPoller::new();
    let mut into = vec![];
    feed_decoded(&mut poller, b"{\"nope\": 0}", &mut into);
    assert_eq!(into, vec![]);
    assert_eq!(poller.handshake_complete(), true);
    feed_decoded(&mut poller, b"{\"hi\": \"late\"}", &mut into);
    assert_eq!(into, vec![Packet::Data(TestStruct { hi: "late".into() })]);
}

#[test]
fn packets_are_appended_behind_what_is_there() {
    let mut poller = JsonPoller::new();
    let mut into = vec![Packet::Data(b"kept".to_vec())];
    poller.feed(b"{}", &mut into);
    assert_eq!(into, vec![Packet::Data(b"kept".to_vec()), Packet::Handshake(b"{}".to_vec())]);
}

#[test]
fn documents_and_leftover_make_up_the_stream() {
    let stream: &[u8] = b"  {\"a\": \"}\"} x {\"b\": {}}\n{\"c\": \"\\\"{\"";
    for cut in 0..=stream.len() {
        let mut poller = JsonPoller::new();
        let mut into = Vec::new();
        poller.feed(&stream[..cut], &mut into);
        poller.feed(&stream[cut..], &mut into);
        assert_eq!(
            into,
            vec![
                Packet::Handshake(b"  {\"a\": \"}\"}".to_vec()),
                Packet::Data(b" x {\"b\": {}}".to_vec()),
            ]
        );
        assert_eq!(poller.pending_len(), 12);
        let handed_out: usize = into
            .iter()
            .map(|packet| match packet {
                Packet::Handshake(bytes) | Packet::Data(bytes) => bytes.len(),
            })
            .sum();
        assert_eq!(handed_out, 24);
        assert_eq!(handed_out + poller.pending_len(), stream.len());
    }
}

#[test]
fn only_decoded_packets_are_kept() {
    let attempts: Vec<Packet<Option<u8>, Option<&str>>> = vec![
        Packet::Handshake(None),
        Packet::Data(Some("a")),
        Packet::Data(None),
        Packet::Handshake(Some(7)),
        Packet::Data(Some("b")),
        Packet::Data(None),
    ];
    assert_eq!(
        keep_decoded(attempts),
        vec![Packet::Data("a"), Packet::Handshake(7), Packet::Data("b")]
    );
    let nothing: Vec<Packet<Option<u8>, Option<u8>>> = vec![];
    assert_eq!(keep_decoded(nothing), vec![]);
}
