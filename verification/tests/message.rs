use chud::crypto::hash;
use chud::sys::msg::{Captcha, Message, MessageData};

fn numbers(byte: u8) -> String {
    let parts: Vec<String> = (0..32).map(|_| format!("{}", byte)).collect();
    format!("[{}]", parts.join(","))
}

fn plain_genesis() -> MessageData {
    MessageData::new(
        Vec::new(),
        None,
        None,
        None,
        0,
        0,
        None,
        Captcha::from_parts(Vec::new(), hash::Hash::new([0; 32])),
    )
}

fn full_data() -> MessageData {
    MessageData::new(
        vec![1, 2],
        Some(hash::Hash::new([1; 32])),
        Some(String::from("tr\"ee")),
        Some(hash::Hash::new([4; 32])),
        1,
        5,
        Some(0),
        Captcha::from_parts(vec![9], hash::Hash::new([2; 32])),
    )
}

#[test]
fn hash_compares_by_bytes() {
    let a = hash::Hash::new([7; 32]);
    let mut bytes: [u8; 32] = [7; 32];
    let b = hash::Hash::new(bytes);
    bytes[31] = 8;
    let c = hash::Hash::new(bytes);
    assert_eq!(a, b);
    assert_ne!(a, c);
    assert_eq!(a.as_bytes(), &[7u8; 32]);
}

#[test]
fn captcha_keeps_the_blake3_digest_of_its_answer() {
    let c = Captcha::new(vec![5, 6], "");
    let expected =
        hex::decode("af1349b9f5f9a1a6a0404dea36dcc9499bcb25c9adc112b7cc9a93cae41f3262").unwrap();
    assert_eq!(c.answer().as_bytes().to_vec(), expected);
    assert_eq!(c.challenge(), &vec![5u8, 6]);
    let d = Captcha::new(Vec::new(), "tree");
    assert_eq!(d.answer().as_bytes(), blake3::hash(b"tree").as_bytes());
    assert_ne!(d.answer().as_bytes().to_vec(), b"tree".to_vec());
}

#[test]
fn captcha_is_answered_only_by_its_answer() {
    let c = Captcha::new(vec![1], "tree");
    assert!(c.is_answered_by("tree"));
    assert!(!c.is_answered_by("Tree"));
    assert!(!c.is_answered_by(""));
    let copy = c.clone();
    assert_eq!(copy.answer(), c.answer());
    assert_eq!(copy.challenge(), c.challenge());
}

#[test]
fn data_hands_back_what_it_was_given() {
    let d = full_data();
    assert_eq!(d.data(), &vec![1u8, 2]);
    assert_eq!(d.prev(), Some(&hash::Hash::new([1; 32])));
    assert_eq!(d.captcha_ans(), Some(&String::from("tr\"ee")));
    assert_eq!(d.captcha_src(), Some(&hash::Hash::new([4; 32])));
    assert_eq!(d.lookback(), Some(0));
    assert_eq!(d.height(), 1);
    assert_eq!(d.timestamp(), 5);
    assert_eq!(d.new_captcha().challenge(), &vec![9u8]);
    assert_eq!(d.new_captcha().answer(), &hash::Hash::new([2; 32]));
    let g = plain_genesis();
    assert!(g.prev().is_none());
    assert!(g.captcha_ans().is_none());
    assert!(g.captcha_src().is_none());
    assert!(g.lookback().is_none());
}

#[test]
fn content_hash_is_blake3_of_the_json_without_identifier() {
    let text = format!("[[],null,null,null,null,[[],{}],0,0,null]", numbers(0));
    let expected = blake3::hash(text.as_bytes());
    let h = plain_genesis().hashed().unwrap();
    assert_eq!(h.as_bytes(), expected.as_bytes());

    let text = format!(
        "[[1,2],{},\"tr\\\"ee\",{},0,[[9],{}],1,5,null]",
        numbers(1),
        numbers(4),
        numbers(2)
    );
    let expected = blake3::hash(text.as_bytes());
    assert_eq!(full_data().hashed().unwrap().as_bytes(), expected.as_bytes());
}

#[test]
fn sealed_message_is_intact_and_a_forged_one_is_not() {
    let m = Message::try_from(full_data()).unwrap();
    assert!(m.is_intact());
    assert_eq!(m.hash(), &full_data().hashed().unwrap());
    assert_eq!(m.data().data(), &vec![1u8, 2]);
    let forged = Message::from_parts(full_data(), hash::Hash::new([3; 32]));
    assert!(!forged.is_intact());
    assert_eq!(forged.hash(), &hash::Hash::new([3; 32]));
    let relabeled = Message::from_parts(plain_genesis(), *m.hash());
    assert!(!relabeled.is_intact());
}

#[test]
fn message_json_is_the_array_of_its_fields() {
    let m = Message::from_parts(full_data(), hash::Hash::new([3; 32]));
    let expected = format!(
        "[[1,2],{},\"tr\\\"ee\",{},0,[[9],{}],1,5,{}]",
        numbers(1),
        numbers(4),
        numbers(2),
        numbers(3)
    );
    assert_eq!(m.to_json().unwrap(), expected.into_bytes());
}

#[test]
fn message_is_read_from_json() {
    let text = format!(
        " [ [8], null, \"a\", {}, 2, [[1,1], {}], 3, 4, {} ] ",
        numbers(6),
        numbers(7),
        numbers(5)
    );
    let m = Message::from_json(text.as_bytes()).unwrap();
    assert_eq!(m.hash(), &hash::Hash::new([5; 32]));
    assert_eq!(m.data().data(), &vec![8u8]);
    assert!(m.data().prev().is_none());
    assert_eq!(m.data().captcha_ans(), Some(&String::from("a")));
    assert_eq!(m.data().captcha_src(), Some(&hash::Hash::new([6; 32])));
    assert_eq!(m.data().lookback(), Some(2));
    assert_eq!(m.data().new_captcha().challenge(), &vec![1u8, 1]);
    assert_eq!(m.data().new_captcha().answer(), &hash::Hash::new([7; 32]));
    assert_eq!(m.data().height(), 3);
    assert_eq!(m.data().timestamp(), 4);
}

#[test]
fn text_that_is_no_message_is_not_read() {
    assert!(Message::from_json(b"").is_none());
    assert!(Message::from_json(b"not json").is_none());
    assert!(Message::from_json(b"{}").is_none());
    assert!(Message::from_json(b"[]").is_none());
    let without_hash = format!("[[],null,null,null,null,[[],{}],0,0,null]", numbers(0));
    assert!(Message::from_json(without_hash.as_bytes()).is_none());
    let short_hash = format!("[[],null,null,null,null,[[],{}],0,0,[1,2,3]]", numbers(0));
    assert!(Message::from_json(short_hash.as_bytes()).is_none());
    let big_byte = format!("[[256],null,null,null,null,[[],{}],0,0,{}]", numbers(0), numbers(0));
    assert!(Message::from_json(big_byte.as_bytes()).is_none());
    let negative = format!("[[],null,null,null,null,[[],{}],-1,0,{}]", numbers(0), numbers(0));
    assert!(Message::from_json(negative.as_bytes()).is_none());
    let trailing = format!("[[],null,null,null,null,[[],{}],0,0,{}] x", numbers(0), numbers(0));
    assert!(Message::from_json(trailing.as_bytes()).is_none());
}

#[test]
fn written_then_read_message_has_the_same_recomputed_hash() {
    let originals = vec![
        Message::try_from(plain_genesis()).unwrap(),
        Message::try_from(full_data()).unwrap(),
        Message::from_parts(full_data(), hash::Hash::new([3; 32])),
        Message::try_from(MessageData::new(
            vec![0, 255, 17],
            Some(hash::Hash::new([255; 32])),
            Some(String::from("caf\u{e9} \u{1f600}\n\t\\")),
            None,
            u64::MAX,
            u64::MAX,
            Some(u64::MAX),
            Captcha::new(vec![1, 2, 3], "answer"),
        ))
        .unwrap(),
    ];
    for m in originals {
        let read = Message::from_json(&m.to_json().unwrap()).unwrap();
        assert_eq!(read.data().hashed().unwrap(), m.data().hashed().unwrap());
        assert_eq!(read.hash(), m.hash());
        assert_eq!(read.is_intact(), m.is_intact());
        assert_eq!(read.data().captcha_ans(), m.data().captcha_ans());
        assert_eq!(read.to_json().unwrap(), m.to_json().unwrap());
    }
}

#[test]
fn clone_keeps_every_field() {
    let m = Message::try_from(full_data()).unwrap();
    let copy = m.clone();
    assert_eq!(copy.to_json().unwrap(), m.to_json().unwrap());
    let d = full_data().clone();
    assert_eq!(d.hashed().unwrap(), full_data().hashed().unwrap());
}
