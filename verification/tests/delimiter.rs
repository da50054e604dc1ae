use emulateme::delimiter::Delimiter;

fn framed(payload: &[u8]) -> Vec<u8> {
    let mut bytes = (payload.len() as u64).to_be_bytes().to_vec();
    bytes.extend_from_slice(payload);
    bytes
}

#[test]
fn frame_then_pop_gives_the_packet() {
    let mut delimiter = Delimiter::default();
    delimiter.push(&framed(&[1, 2, 3]));
    assert_eq!(delimiter.pop(), Some(vec![1, 2, 3]));
    assert_eq!(delimiter.pop(), None);
}

#[test]
fn packets_split_across_pushes() {
    let mut delimiter = Delimiter::new();
    let bytes = framed(b"hello world");
    delimiter.push(&bytes[..5]);
    assert_eq!(delimiter.pop(), None);
    delimiter.push(&bytes[5..12]);
    assert_eq!(delimiter.pop(), None);
    delimiter.push(&bytes[12..]);
    assert_eq!(delimiter.pop(), Some(b"hello world".to_vec()));
}

#[test]
fn several_packets_in_one_push() {
    let mut delimiter = Delimiter::default();
    let mut bytes = framed(&[9]);
    bytes.extend(framed(&[]));
    bytes.extend(framed(&[7, 7]));
    bytes.extend(&[0, 0, 0]);
    delimiter.push(&bytes);
    assert_eq!(delimiter.pop(), Some(vec![9]));
    assert_eq!(delimiter.pop(), Some(vec![]));
    assert_eq!(delimiter.pop(), Some(vec![7, 7]));
    assert_eq!(delimiter.pop(), None);
    delimiter.push(&[0, 0, 0, 0, 2, 0xAB]);
    assert_eq!(delimiter.pop(), None);
    delimiter.push(&[0xCD, 0xEF]);
    assert_eq!(delimiter.pop(), Some(vec![0xAB, 0xCD]));
    assert_eq!(delimiter.pop(), None);
}

#[test]
fn length_is_big_endian() {
    let mut delimiter = Delimiter::default();
    let payload: Vec<u8> = (0..300).map(|i| i as u8).collect();
    let mut bytes = vec![0, 0, 0, 0, 0, 0, 0x01, 0x2C];
    bytes.extend(&payload);
    delimiter.push(&bytes);
    assert_eq!(delimiter.pop(), Some(payload));
}

#[test]
fn chunked_stream_with_pops_between_gives_packets_in_order() {
    let messages: Vec<Vec<u8>> = vec![vec![1, 2, 3], vec![], vec![9; 20], vec![7]];
    let mut stream = Vec::new();
    for m in &messages {
        stream.extend_from_slice(&(m.len() as u64).to_be_bytes());
        stream.extend_from_slice(m);
    }
    let mut delimiter = Delimiter::default();
    let mut out = Vec::new();
    for chunk in stream.chunks(3) {
        delimiter.push(chunk);
        while let Some(packet) = delimiter.pop() {
            out.push(packet);
        }
    }
    assert_eq!(out, messages);
    assert_eq!(delimiter.pop(), None);
}

#[test]
fn partial_frame_pops_nothing_then_completes() {
    let mut delimiter = Delimiter::default();
    let frame = [0, 0, 0, 0, 0, 0, 0, 2, 0xAB, 0xCD];
    delimiter.push(&frame[..9]);
    assert_eq!(delimiter.pop(), None);
    delimiter.push(&frame[9..]);
    assert_eq!(delimiter.pop(), Some(vec![0xAB, 0xCD]));
    assert_eq!(delimiter.pop(), None);
}
