//! Reading the results of a response into Rust-native values, one type per
//! shape of results.

use vstd::prelude::*;
use vstd::slice::slice_to_vec;

use crate::error::BitcoinCapnpError;
use crate::mining::BlockRef;
use crate::wire::{
    BlockRefReader, Int64ListReader, data_list_get, data_list_len, int64_list_get, int64_list_len,
    text_to_str,
};

verus! {

/// Results with one `Bool` field.
pub struct Bool;

impl Bool {
    pub fn extract(result: bool) -> (r: Result<bool, BitcoinCapnpError>)
        ensures
            r == Ok::<bool, BitcoinCapnpError>(result),
    {
        Ok(result)
    }
}

/// Results with a block reference that may be absent.
pub struct OptionBlockRef {
    pub has_result: bool,
    pub result: Result<BlockRefReader, capnp::Error>,
}

impl OptionBlockRef {
    /// Whether the hash can be read, if it has to be.
    pub open spec fn readable(self) -> bool {
        self.has_result ==> BlockRefMarker::readable(self.result)
    }

    /// `r` is what these results say.
    pub open spec fn extracts(self, r: Result<Option<BlockRef>, BitcoinCapnpError>) -> bool {
        if self.has_result {
            match r {
                Ok(Some(block)) => BlockRefMarker::extracts(self.result, Ok(block)),
                Ok(None) => false,
                Err(e) => BlockRefMarker::extracts(self.result, Err(e)),
            }
        } else {
            r == Ok::<Option<BlockRef>, BitcoinCapnpError>(None)
        }
    }

    pub fn extract(self) -> (r: Result<Option<BlockRef>, BitcoinCapnpError>)
        requires
            self.readable(),
        ensures
            self.extracts(r),
    {
        if !self.has_result {
            Ok(None)
        } else {
            match self.result {
                Ok(block) => Ok(Some(BlockRef::from(block))),
                Err(e) => Err(BitcoinCapnpError::from(e)),
            }
        }
    }
}

/// Results with a block reference.
pub struct BlockRefMarker;

impl BlockRefMarker {
    /// Whether the hash can be read, if there is one.
    pub open spec fn readable(result: Result<BlockRefReader, capnp::Error>) -> bool {
        result matches Ok(block) ==> block.hash is Ok
    }

    /// `r` is what these results say.
    pub open spec fn extracts(
        result: Result<BlockRefReader, capnp::Error>,
        r: Result<BlockRef, BitcoinCapnpError>,
    ) -> bool {
        match result {
            Ok(block) => r matches Ok(b) && block.hash == Ok::<Vec<u8>, capnp::Error>(b.hash)
                && b.height == block.height,
            Err(e) => r == Err::<BlockRef, BitcoinCapnpError>(BitcoinCapnpError::CapnpError(e)),
        }
    }

    pub fn extract(result: Result<BlockRefReader, capnp::Error>) -> (r: Result<
        BlockRef,
        BitcoinCapnpError,
    >)
        requires
            Self::readable(result),
        ensures
            Self::extracts(result, r),
    {
        match result {
            Ok(block) => Ok(BlockRef::from(block)),
            Err(e) => Err(BitcoinCapnpError::from(e)),
        }
    }
}

/// Results with a byte string.
pub struct Bytes;

impl Bytes {
    /// `r` is what these results say.
    pub open spec fn extracts(
        result: Result<&[u8], capnp::Error>,
        r: Result<Vec<u8>, BitcoinCapnpError>,
    ) -> bool {
        match result {
            Ok(data) => r matches Ok(bytes) && bytes@ == data@,
            Err(e) => r == Err::<Vec<u8>, BitcoinCapnpError>(BitcoinCapnpError::CapnpError(e)),
        }
    }

    pub fn extract(result: Result<&[u8], capnp::Error>) -> (r: Result<Vec<u8>, BitcoinCapnpError>)
        ensures
            Self::extracts(result, r),
    {
        match result {
            Ok(data) => Ok(slice_to_vec(data)),
            Err(e) => Err(BitcoinCapnpError::from(e)),
        }
    }
}

/// Results with a list of 64-bit integers.
pub struct Int64List;

impl Int64List {
    /// `r` is what these results say.
    pub open spec fn extracts(
        result: Result<Int64ListReader<'_>, capnp::Error>,
        r: Result<Vec<i64>, BitcoinCapnpError>,
    ) -> bool {
        match result {
            Ok(list) => r matches Ok(items) && items@ == crate::wire::int64_list_items(list),
            Err(e) => r == Err::<Vec<i64>, BitcoinCapnpError>(BitcoinCapnpError::CapnpError(e)),
        }
    }

    pub fn extract(result: Result<Int64ListReader<'_>, capnp::Error>) -> (r: Result<
        Vec<i64>,
        BitcoinCapnpError,
    >)
        ensures
            Self::extracts(result, r),
    {
        match result {
            Ok(list) => {
                let len: u32 = int64_list_len(&list);
                let mut items: Vec<i64> = Vec::new();
                let mut i: u32 = 0;
                while i < len
                    invariant
                        i <= len,
                        len == crate::wire::int64_list_items(list).len(),
                        items@ == crate::wire::int64_list_items(list).take(i as int),
                    decreases len - i,
                {
                    items.push(int64_list_get(&list, i));
                    i = i + 1;
                }
                assert(crate::wire::int64_list_items(list).take(len as int)
                    == crate::wire::int64_list_items(list));
                Ok(items)
            },
            Err(e) => Err(BitcoinCapnpError::from(e)),
        }
    }
}

/// Results with a list of byte strings.
pub struct DataList;

impl DataList {
    /// `reads` are reads of the elements of `list`, from its start to its end
    /// or to the first that failed.
    pub open spec fn reads_of(
        list: capnp::data_list::Reader<'_>,
        reads: Seq<Result<&[u8], capnp::Error>>,
    ) -> bool {
        &&& reads.len() <= crate::wire::data_list_items(list).len()
        &&& forall|i: int|
            0 <= i < reads.len() ==> crate::wire::data_list_gives(
                list,
                i as u32,
                #[trigger] reads[i],
            )
        &&& forall|i: int| 0 <= i < reads.len() - 1 ==> (#[trigger] reads[i]) is Ok
        &&& reads.len() < crate::wire::data_list_items(list).len() ==> reads.len() > 0
            && reads.last() is Err
    }

    /// `r` is what these results say. Whether a non-empty list can be read to
    /// its end is up to the message, so for such a list a failed read is
    /// allowed; its error is then the error of the whole.
    pub open spec fn extracts(
        result: Result<capnp::data_list::Reader<'_>, capnp::Error>,
        r: Result<Vec<Vec<u8>>, BitcoinCapnpError>,
    ) -> bool {
        match result {
            Ok(list) => {
                &&& match r {
                    Ok(items) => items@.map_values(|item: Vec<u8>| item@)
                        == crate::wire::data_list_items(list),
                    Err(e) => e is CapnpError && crate::wire::data_list_items(list).len() > 0,
                }
                &&& exists|reads: Seq<Result<&[u8], capnp::Error>>|
                    #![trigger Self::reads_of(list, reads)]
                    Self::reads_of(list, reads) && Self::collects(reads, r)
            },
            Err(e) => r == Err::<Vec<Vec<u8>>, BitcoinCapnpError>(BitcoinCapnpError::CapnpError(e)),
        }
    }

    /// Adds what was read of one element to `items`; a failed read becomes
    /// the error of the whole and leaves `items` alone.
    pub fn push_item(items: &mut Vec<Vec<u8>>, item: Result<&[u8], capnp::Error>) -> (r: Result<
        (),
        BitcoinCapnpError,
    >)
        ensures
            match item {
                Ok(data) => {
                    &&& r is Ok
                    &&& final(items)@.len() == old(items)@.len() + 1
                    &&& final(items)@.drop_last() == old(items)@
                    &&& final(items)@.last()@ == data@
                },
                Err(e) => {
                    &&& r == Err::<(), BitcoinCapnpError>(BitcoinCapnpError::CapnpError(e))
                    &&& final(items)@ == old(items)@
                },
            },
    {
        match item {
            Ok(data) => {
                items.push(slice_to_vec(data));
                assert(items@.drop_last() == old(items)@);
                Ok(())
            },
            Err(e) => Err(BitcoinCapnpError::from(e)),
        }
    }

    /// `r` is what the reads of a list's elements come to: every element, or
    /// the error of the first read that failed.
    pub open spec fn collects(
        reads: Seq<Result<&[u8], capnp::Error>>,
        r: Result<Vec<Vec<u8>>, BitcoinCapnpError>,
    ) -> bool {
        match r {
            Ok(items) => {
                &&& items@.len() == reads.len()
                &&& forall|i: int|
                    0 <= i < reads.len() ==> (#[trigger] reads[i]) is Ok && items@[i]@
                        == reads[i]->Ok_0@
            },
            Err(e) => exists|i: int|
                {
                    &&& 0 <= i < reads.len()
                    &&& (#[trigger] reads[i]) is Err
                    &&& e == BitcoinCapnpError::CapnpError(reads[i]->Err_0)
                    &&& forall|j: int| 0 <= j < i ==> (#[trigger] reads[j]) is Ok
                },
        }
    }

    /// Puts the elements of a list together from what came of reading each of
    /// them.
    pub fn collect(reads: Vec<Result<&[u8], capnp::Error>>) -> (r: Result<
        Vec<Vec<u8>>,
        BitcoinCapnpError,
    >)
        ensures
            Self::collects(reads@, r),
    {
        let ghost all = reads@;
        let mut items: Vec<Vec<u8>> = Vec::new();
        for read in it: reads.into_iter()
            invariant
                it.seq() == all,
                items@.len() == it.index(),
                forall|k: int|
                    0 <= k < it.index() ==> (#[trigger] all[k]) is Ok && items@[k]@
                        == all[k]->Ok_0@,
        {
            let ghost before = items@;
            match Self::push_item(&mut items, read) {
                Ok(()) => {
                    assert forall|k: int| 0 <= k < it.index() + 1 implies (#[trigger] all[k]) is Ok
                        && items@[k]@ == all[k]->Ok_0@ by {
                        if k < it.index() {
                            assert(items@.drop_last()[k] == before[k]);
                        }
                    }
                },
                Err(e) => {
                    return Err(e);
                },
            }
        }
        Ok(items)
    }

    /// Reads the list from its start, up to the first read that fails, and
    /// puts together what came of it.
    pub fn extract(result: Result<capnp::data_list::Reader<'_>, capnp::Error>) -> (r: Result<
        Vec<Vec<u8>>,
        BitcoinCapnpError,
    >)
        ensures
            Self::extracts(result, r),
    {
        match result {
            Ok(list) => {
                let len: u32 = data_list_len(&list);
                let mut reads: Vec<Result<&[u8], capnp::Error>> = Vec::new();
                let mut failed = false;
                let mut i: u32 = 0;
                let ghost all = crate::wire::data_list_items(list);
                while i < len && !failed
                    invariant
                        i <= len,
                        len == all.len(),
                        all == crate::wire::data_list_items(list),
                        reads@.len() == i,
                        forall|k: int|
                            0 <= k < i ==> ((#[trigger] reads@[k]) matches Ok(data) ==> data@
                                == all[k]),
                        forall|k: int|
                            0 <= k < i ==> crate::wire::data_list_gives(
                                list,
                                k as u32,
                                #[trigger] reads@[k],
                            ),
                        forall|k: int| 0 <= k < i - 1 ==> (#[trigger] reads@[k]) is Ok,
                        !failed && i > 0 ==> reads@[i - 1] is Ok,
                        failed ==> i > 0 && reads@[i - 1] is Err,
                    decreases len - i,
                {
                    let read = data_list_get(&list, i);
                    proof {
                        crate::wire::lemma_data_list_gives(list, i, read);
                    }
                    failed = read.is_err();
                    reads.push(read);
                    i = i + 1;
                }
                let ghost seen = reads@;
                assert(Self::reads_of(list, seen));
                let r = Self::collect(reads);
                proof {
                    if r is Ok {
                        let items = r->Ok_0;
                        assert(failed ==> seen[i - 1] is Ok);
                        assert forall|k: int| 0 <= k < all.len() implies (#[trigger] items@[k])@
                            == all[k] by {
                            assert(seen[k] is Ok);
                        }
                        assert(items@.map_values(|item: Vec<u8>| item@) == all);
                    }
                }
                r
            },
            Err(e) => Err(BitcoinCapnpError::from(e)),
        }
    }
}

/// Results without a field.
pub struct Unit;

impl Unit {
    pub fn extract(result: ()) -> (r: Result<(), BitcoinCapnpError>)
        ensures
            r == Ok::<(), BitcoinCapnpError>(()),
    {
        Ok(result)
    }
}

/// Results with a text.
pub struct Text;

impl Text {
    /// `r` is what these results say: bytes that are not UTF-8 are reported
    /// as a failed Cap'n Proto operation.
    pub open spec fn extracts(
        result: Result<capnp::text::Reader<'_>, capnp::Error>,
        r: Result<String, BitcoinCapnpError>,
    ) -> bool {
        match result {
            Ok(text) => if vstd::utf8::valid_utf8(text.0@) {
                r matches Ok(s) && s@ == vstd::utf8::decode_utf8(text.0@)
            } else {
                &&& r matches Err(BitcoinCapnpError::CapnpError(e))
                &&& e.kind == capnp::ErrorKind::Failed
                &&& e.extra@ == "UTF-8 error: "@ + crate::wire::utf8_error_text(text.0@)
            },
            Err(e) => r == Err::<String, BitcoinCapnpError>(BitcoinCapnpError::CapnpError(e)),
        }
    }

    pub fn extract(result: Result<capnp::text::Reader<'_>, capnp::Error>) -> (r: Result<
        String,
        BitcoinCapnpError,
    >)
        ensures
            Self::extracts(result, r),
    {
        match result {
            Ok(text) => match text_to_str(text) {
                Ok(s) => Ok(s),
                Err(reason) => {
                    let mut description: String = "UTF-8 error: ".to_owned();
                    description.append(reason.as_str());
                    Err(BitcoinCapnpError::from(capnp::Error::failed(description)))
                },
            },
            Err(e) => Err(BitcoinCapnpError::from(e)),
        }
    }
}

} // verus!
