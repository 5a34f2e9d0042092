use bitcoin_capnp::extract::{
    BlockRefMarker, Bool, Bytes, DataList, Int64List, OptionBlockRef, Text, Unit,
};
use bitcoin_capnp::wire::{BlockRefReader, Int64ListReader};
use bitcoin_capnp::BitcoinCapnpError;

fn failed(text: &str) -> capnp::Error {
    capnp::Error::failed(text.to_string())
}

fn extra<T>(r: Result<T, BitcoinCapnpError>) -> String {
    match r {
        Err(BitcoinCapnpError::CapnpError(e)) => e.extra,
        _ => panic!("not a capnp error"),
    }
}

#[test]
fn inline_fields_are_passed_on() {
    assert!(matches!(Bool::extract(true), Ok(true)));
    assert!(matches!(Bool::extract(false), Ok(false)));
    assert!(matches!(Unit::extract(()), Ok(())));
}

#[test]
fn an_absent_tip_is_none() {
    let results = OptionBlockRef { has_result: false, result: Err(failed("unset")) };
    assert!(matches!(results.extract(), Ok(None)));
}

#[test]
fn a_present_tip_is_read() {
    let block = BlockRefReader { hash: Ok(vec![1, 2]), height: -3 };
    let results = OptionBlockRef { has_result: true, result: Ok(block) };
    match results.extract() {
        Ok(Some(b)) => assert_eq!((b.hash, b.height), (vec![1, 2], -3)),
        _ => panic!("no tip"),
    }
    let results = OptionBlockRef { has_result: true, result: Err(failed("bad pointer")) };
    assert_eq!(extra(results.extract()), "bad pointer");
}

#[test]
fn a_new_tip_is_read() {
    match BlockRefMarker::extract(Ok(BlockRefReader { hash: Ok(vec![7]), height: 8 })) {
        Ok(b) => assert_eq!((b.hash, b.height), (vec![7], 8)),
        Err(_) => panic!("no tip"),
    }
    assert_eq!(extra(BlockRefMarker::extract(Err(failed("bad pointer")))), "bad pointer");
}

#[test]
fn bytes_are_copied() {
    assert!(matches!(Bytes::extract(Ok(&[1, 2, 3])), Ok(v) if v == vec![1, 2, 3]));
    assert!(matches!(Bytes::extract(Ok(&[])), Ok(v) if v.is_empty()));
    assert_eq!(extra(Bytes::extract(Err(failed("bad pointer")))), "bad pointer");
}

#[test]
fn integer_lists_are_read_in_order() {
    let mut message = capnp::message::Builder::new_default();
    {
        let mut list = message.initn_root::<capnp::primitive_list::Builder<'_, i64>>(4);
        list.set(0, 100);
        list.set(1, -1);
        list.set(2, i64::MAX);
        list.set(3, i64::MIN);
    }
    let reader = message
        .get_root_as_reader::<capnp::primitive_list::Reader<'_, i64>>()
        .unwrap();
    match Int64List::extract(Ok(Int64ListReader { reader })) {
        Ok(items) => assert_eq!(items, vec![100, -1, i64::MAX, i64::MIN]),
        Err(_) => panic!("no list"),
    }
}

#[test]
fn an_empty_integer_list_is_read() {
    let mut message = capnp::message::Builder::new_default();
    message.initn_root::<capnp::primitive_list::Builder<'_, i64>>(0);
    let reader = message
        .get_root_as_reader::<capnp::primitive_list::Reader<'_, i64>>()
        .unwrap();
    assert!(matches!(Int64List::extract(Ok(Int64ListReader { reader })), Ok(v) if v.is_empty()));
    assert_eq!(extra(Int64List::extract(Err(failed("bad pointer")))), "bad pointer");
}

#[test]
fn data_lists_are_read_in_order() {
    let mut message = capnp::message::Builder::new_default();
    {
        let mut list = message.initn_root::<capnp::data_list::Builder<'_>>(3);
        list.set(0, &[1, 2]);
        list.set(2, &[3]);
    }
    let reader = message
        .get_root_as_reader::<capnp::data_list::Reader<'_>>()
        .unwrap();
    match DataList::extract(Ok(reader)) {
        Ok(items) => assert_eq!(items, vec![vec![1, 2], vec![], vec![3]]),
        Err(_) => panic!("no list"),
    }
}

#[test]
fn an_empty_data_list_is_read() {
    let mut message = capnp::message::Builder::new_default();
    message.initn_root::<capnp::data_list::Builder<'_>>(0);
    let reader = message
        .get_root_as_reader::<capnp::data_list::Reader<'_>>()
        .unwrap();
    assert!(matches!(DataList::extract(Ok(reader)), Ok(v) if v.is_empty()));
    assert_eq!(extra(DataList::extract(Err(failed("bad pointer")))), "bad pointer");
}

#[test]
fn an_element_that_is_no_data_fails_the_list() {
    type Rows = capnp::list_list::Owned<capnp::primitive_list::Owned<i64>>;
    let mut message = capnp::message::Builder::new_default();
    {
        let rows: <Rows as capnp::traits::Owned>::Builder<'_> = message.initn_root(1);
        rows.init(0, 2).set(0, 5);
    }
    let reader = message
        .get_root_as_reader::<capnp::data_list::Reader<'_>>()
        .unwrap();
    match DataList::extract(Ok(reader)) {
        Err(BitcoinCapnpError::CapnpError(e)) => assert_eq!(
            e.kind,
            capnp::ErrorKind::MessageContainsListPointerOfNonBytesWhereDataWasExpected
        ),
        _ => panic!("the element is a list of integers"),
    }
}

#[test]
fn list_items_are_added_one_by_one() {
    let mut items = vec![vec![9]];
    assert!(DataList::push_item(&mut items, Ok(&[8, 7])).is_ok());
    assert_eq!(items, vec![vec![9], vec![8, 7]]);
    assert_eq!(extra(DataList::push_item(&mut items, Err(failed("limit")))), "limit");
    assert_eq!(items.len(), 2);
}

#[test]
fn reads_that_all_succeed_make_the_list() {
    let reads: Vec<Result<&[u8], capnp::Error>> = vec![Ok(&[1, 2]), Ok(&[]), Ok(&[3])];
    assert!(matches!(
        DataList::collect(reads),
        Ok(items) if items == vec![vec![1, 2], vec![], vec![3]]
    ));
    assert!(matches!(DataList::collect(vec![]), Ok(items) if items.is_empty()));
}

#[test]
fn the_first_failed_read_fails_the_list() {
    let reads: Vec<Result<&[u8], capnp::Error>> =
        vec![Ok(&[1]), Err(failed("first")), Ok(&[2]), Err(failed("second"))];
    assert_eq!(extra(DataList::collect(reads)), "first");
}

#[test]
fn text_is_decoded() {
    let text = capnp::text::Reader("ping \u{2014} \u{1F9F1}".as_bytes());
    assert!(matches!(Text::extract(Ok(text)), Ok(s) if s == "ping \u{2014} \u{1F9F1}"));
    assert!(matches!(Text::extract(Ok(capnp::text::Reader(b""))), Ok(s) if s.is_empty()));
    assert_eq!(extra(Text::extract(Err(failed("bad pointer")))), "bad pointer");
}

#[test]
fn text_that_is_not_utf8_is_refused() {
    match Text::extract(Ok(capnp::text::Reader(b"ab\xff"))) {
        Err(BitcoinCapnpError::CapnpError(e)) => {
            assert_eq!(e.kind, capnp::ErrorKind::Failed);
            assert_eq!(
                e.extra,
                "UTF-8 error: invalid utf-8 sequence of 1 bytes from index 2"
            );
        }
        _ => panic!("the text is not UTF-8"),
    }
}
