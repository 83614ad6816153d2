use tee_ell_ess::wire::{
    alert::AlertDesc,
    vec::{SmallVec, Vector},
    TryParse,
};

fn hex(s: &str) -> Vec<u8> {
    (0..s.len())
        .step_by(2)
        .map(|i| u8::from_str_radix(&s[i..i + 2], 16).unwrap())
        .collect()
}

#[test]
fn test_vector() {
    let mut data = vec![42; 2 + 300];
    [data[0], data[1]] = u16::to_be_bytes(300);
    let (got, rest) = Vector::<u8, 300, 400>::try_parse(&data).unwrap();
    assert!(got.eq_bytes(&data[2..]));
    assert_eq!(got.as_slice(), &data[2..]);
    assert_eq!(rest, &[] as &[u8]);
}

#[test]
fn test_try_iter() {
    let data = hex("0014001d0017001e0019001801000101010201030104");
    let v = Vector::<u16, 0, { (1 << 16) - 1 }>::try_parse_all(&data).unwrap();

    // First two bytes of `data` are the length.
    assert_eq!(v.as_slice().len() % 2, 0);
    assert_eq!(v.as_slice().len() / 2, (data.len() - 2) / 2);

    let chunks: Vec<u16> = v
        .as_slice()
        .chunks_exact(2)
        .map(|chunk| u16::from_be_bytes(chunk.try_into().unwrap()))
        .collect();
    let nchunks = chunks.len();

    assert_eq!(v.try_iter().count(), nchunks);
    assert_eq!(v.iter().count(), nchunks);

    assert_eq!(v.try_iter().size_hint(), (nchunks, Some(nchunks)));
    assert_eq!(v.iter().size_hint(), (nchunks, Some(nchunks)));

    let mut try_iter = v.try_iter();
    for want in &chunks {
        assert_eq!(try_iter.next().unwrap().unwrap(), *want);
    }
    assert!(try_iter.next().is_none());

    let mut iter = v.iter();
    for want in &chunks {
        assert_eq!(iter.next().unwrap(), *want);
    }
    assert!(iter.next().is_none());
}

#[test]
fn vector_length_below_minimum_is_refused() {
    let data = hex("0001ff");
    let err = Vector::<u8, 2, 10>::try_parse(&data).unwrap_err();
    assert_eq!(err.alert().desc, AlertDesc::DecodeDrror);
}

#[test]
fn vector_length_above_maximum_is_refused() {
    let data = hex("0b0102030405060708090a0b");
    let err = Vector::<u8, 0, 10>::try_parse(&data).unwrap_err();
    assert_eq!(err.alert().desc, AlertDesc::DecodeDrror);
}

#[test]
fn vector_of_u16_must_hold_whole_elements() {
    let data = hex("0003000102");
    assert!(Vector::<u16, 0, 300>::try_parse(&data).is_err());
}

#[test]
fn vector_leaves_the_rest() {
    let data = hex("02abcdef");
    let (v, rest) = Vector::<u8, 0, 255>::try_parse(&data).unwrap();
    assert_eq!(v.as_slice(), &[0xab, 0xcd]);
    assert_eq!(rest, &[0xef]);
}

#[test]
fn vector_truncated_is_refused() {
    let data = hex("05abcd");
    assert!(Vector::<u8, 0, 255>::try_parse(&data).is_err());
}

#[test]
fn small_vec_parses_its_bytes() {
    let data = hex("03010203ff");
    let (v, rest) = SmallVec::<u8, 0, 32>::try_parse(&data).unwrap();
    assert_eq!(v.as_slice(), &[1, 2, 3]);
    assert_eq!(rest, &[0xff]);
}

#[test]
fn try_iter_reports_a_bad_element() {
    // A vector of two-byte lengths whose second element is cut short.
    let data = hex("000401aa02bb");
    let v = Vector::<Vector<u8, 1, 255>, 0, 65535>::try_parse_all(&data).unwrap();
    let mut it = v.try_iter();
    let first = it.next().unwrap().unwrap();
    assert_eq!(first.as_slice(), &[0xaa]);
    assert!(it.next().unwrap().is_err());
    let mut it = v.iter();
    assert!(it.next().is_some());
    assert!(it.next().is_none());
}

#[test]
fn try_iter_over_variable_size_elements_ends() {
    // Two vectors of bytes, then nothing.
    let data = hex("000501aa02bbcc");
    let v = Vector::<Vector<u8, 1, 255>, 0, 65535>::try_parse_all(&data).unwrap();
    let mut it = v.try_iter();
    assert_eq!(it.next().unwrap().unwrap().as_slice(), &[0xaa]);
    assert_eq!(it.next().unwrap().unwrap().as_slice(), &[0xbb, 0xcc]);
    assert!(it.next().is_none());
    assert!(it.next().is_none());
    assert_eq!(v.try_iter().count(), 2);
    assert_eq!(v.iter().count(), 2);
}

#[test]
fn try_iter_ends_after_a_bad_element() {
    let data = hex("000401aa02bb");
    let v = Vector::<Vector<u8, 1, 255>, 0, 65535>::try_parse_all(&data).unwrap();
    let mut it = v.try_iter();
    assert!(it.next().unwrap().is_ok());
    assert!(it.next().unwrap().is_err());
    assert!(it.next().is_none());
    // The good element and the error.
    assert_eq!(v.try_iter().count(), 2);
    // Only the good element.
    assert_eq!(v.iter().count(), 1);
}

#[test]
fn nth_past_the_end_is_none() {
    let data = hex("000501aa02bbcc");
    let v = Vector::<Vector<u8, 1, 255>, 0, 65535>::try_parse_all(&data).unwrap();
    assert_eq!(v.try_iter().nth(1).unwrap().unwrap().as_slice(), &[0xbb, 0xcc]);
    assert!(v.try_iter().nth(2).is_none());
    assert!(v.try_iter().nth(7).is_none());
}
