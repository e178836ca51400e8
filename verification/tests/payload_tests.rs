use rsocket_ffi::payload::Payload;
use rsocket_ffi::payload_bindings::{
    create_payload, create_payload_from_string, rsocket_payload_copy_data, rsocket_payload_create,
    rsocket_payload_create_from_string, rsocket_payload_get_data_length,
    rsocket_payload_get_metadata_length, JavaRSocketPayload, JsPayload, PyPayload,
    Java_com_rsocket_rust_Payload_create, Java_com_rsocket_rust_Payload_createFromString,
    Java_com_rsocket_rust_Payload_getData, Java_com_rsocket_rust_Payload_getDataLength,
};

#[test]
fn builder_keeps_what_was_set() {
    let p = Payload::builder()
        .set_data(bytes::Bytes::from(vec![1, 2, 3]))
        .set_metadata_utf8("meta")
        .build();
    assert_eq!(p.data(), Some(&[1u8, 2, 3][..]));
    assert_eq!(p.metadata_utf8(), Some("meta"));
    assert_eq!(p.data_len(), 3);
    assert_eq!(p.metadata_len(), 4);
    let empty = Payload::builder().build();
    assert_eq!(empty.data(), None);
    assert_eq!(empty.data_len(), 0);
    assert_eq!(empty.metadata_utf8(), None);
}

#[test]
fn utf8_text_reads_back() {
    let p = Payload::builder().set_data_utf8("héllo ✓").build();
    assert_eq!(p.data_utf8(), Some("héllo ✓"));
    assert_eq!(p.data_len(), "héllo ✓".len());
    let bad = Payload::builder().set_data(bytes::Bytes::from(vec![0xff, 0xfe])).build();
    assert_eq!(bad.data_utf8(), None);
    assert_eq!(bad.data_to_vec(), Some(vec![0xff, 0xfe]));
}

#[test]
fn c_payload_skips_empty_and_null_parts() {
    let p = rsocket_payload_create(Some(&[][..]), None);
    assert_eq!(p.data(), None);
    assert_eq!(p.metadata(), None);
    assert_eq!(rsocket_payload_get_data_length(Some(&p)), 0);
    let q = rsocket_payload_create(None, Some(&[7u8][..]));
    assert_eq!(q.data(), None);
    assert_eq!(rsocket_payload_get_metadata_length(Some(&q)), 1);
}

#[test]
fn c_payload_from_null_string_has_empty_data() {
    let p = rsocket_payload_create_from_string(None, None);
    assert_eq!(p.data(), Some(&[][..]));
    assert_eq!(p.metadata(), None);
}

#[test]
fn copy_data_fills_what_fits() {
    let p = rsocket_payload_create(Some(&b"abcdef"[..]), None);
    let mut small = [0u8; 4];
    assert_eq!(rsocket_payload_copy_data(Some(&p), &mut small), 4);
    assert_eq!(&small, b"abcd");
    let mut large = [9u8; 8];
    assert_eq!(rsocket_payload_copy_data(Some(&p), &mut large), 6);
    assert_eq!(&large, b"abcdef\x09\x09");
    let mut untouched = [5u8; 3];
    assert_eq!(rsocket_payload_copy_data(None, &mut untouched), 0);
    let no_data = rsocket_payload_create(None, None);
    assert_eq!(rsocket_payload_copy_data(Some(&no_data), &mut untouched), 0);
    assert_eq!(untouched, [5u8; 3]);
}

#[test]
fn java_payload_functions() {
    let p = Java_com_rsocket_rust_Payload_create(Some(vec![1, 2]), Some(vec![]));
    assert_eq!(Java_com_rsocket_rust_Payload_getDataLength(Some(&p)), 2);
    assert_eq!(Java_com_rsocket_rust_Payload_getData(Some(&p)), Some(vec![1, 2]));
    assert_eq!(p.inner().metadata(), Some(&[][..]));
    assert_eq!(Java_com_rsocket_rust_Payload_getDataLength(None), 0);
    assert_eq!(Java_com_rsocket_rust_Payload_getData(None), None);

    let s = Java_com_rsocket_rust_Payload_createFromString(None, Some("m".to_string()));
    assert_eq!(Java_com_rsocket_rust_Payload_getData(Some(&s)), Some(vec![]));
    assert_eq!(s.inner().metadata_utf8(), Some("m"));

    let wrapped = JavaRSocketPayload::new(rsocket_payload_create(Some(&b"xy"[..]), None));
    let back = wrapped.into_inner();
    assert_eq!(back.data(), Some(&b"xy"[..]));
}

#[test]
fn js_payload_functions() {
    let p = JsPayload::new(Some(b"data".to_vec()), None);
    assert!(p.has_data());
    assert!(!p.has_metadata());
    assert_eq!(p.data_len(), 4);
    assert_eq!(p.metadata_len(), 0);
    assert_eq!(p.get_data(), Some(b"data".to_vec()));
    assert_eq!(p.get_metadata(), None);
    assert_eq!(p.get_data_utf8(), Some("data".to_string()));
    assert_eq!(p.to_string(), "JsPayload(data: 4, metadata: 0)");

    let j = JsPayload::from_json("{\"a\":1}".to_string(), Some("m".to_string()));
    assert_eq!(j.get_data_utf8(), Some("{\"a\":1}".to_string()));
    assert_eq!(j.get_metadata_utf8(), Some("m".to_string()));

    let copy = JsPayload::from_rsocket_payload(j.to_rsocket_payload());
    assert_eq!(copy.get_data(), j.get_data());

    assert_eq!(create_payload(None, None).has_data(), false);
    assert_eq!(create_payload_from_string("hi".to_string()).data_len(), 2);
}

#[test]
fn python_builder_starts_over_after_build() {
    let mut b = PyPayload::builder();
    b.set_data_utf8("one");
    b.set_metadata(vec![1, 2, 3]);
    let first = b.build();
    assert_eq!(first.data_utf8(), Some("one".to_string()));
    assert_eq!(first.metadata(), Some(vec![1, 2, 3]));
    let second = b.build();
    assert_eq!(second.data(), None);
    assert_eq!(second.metadata_utf8(), None);

    b.set_data(vec![0x68, 0x69]);
    b.set_metadata_utf8("x");
    let third = b.build();
    assert_eq!(third.data_utf8(), Some("hi".to_string()));
    let rust = third.to_rust();
    assert_eq!(PyPayload::from_rust(rust).metadata_utf8(), Some("x".to_string()));
}
