//! The values that cross the Cap'n Proto boundary: plain records for the
//! structs of the node's schema, and the list and text readers of the
//! `capnp` runtime together with what is relied on about them.

use vstd::prelude::*;

verus! {

/// A `Float64` field. The value is carried by its IEEE 754 bit pattern
/// (`f64::to_bits`) and is only ever passed on.
#[derive(Clone, Copy, Debug, PartialEq, Eq, Structural)]
pub struct Float64 {
    pub bits: u64,
}

/// What a reader of the schema's `BlockRef` yields: the hash is a pointer
/// field, so reading it can fail; the height is an inline field.
pub struct BlockRefReader {
    pub hash: Result<Vec<u8>, capnp::Error>,
    pub height: i32,
}

/// The fields of the schema's `BlockCreateOptions`, as set in a request.
#[derive(Clone, Copy, Debug, PartialEq, Eq, Structural)]
pub struct BlockCreateOptionsBuilder {
    pub use_mempool: bool,
    pub block_reserved_weight: u64,
    pub coinbase_output_max_additional_sigops: u64,
}

impl BlockCreateOptionsBuilder {
    /// All fields zero.
    pub open spec fn zeroed() -> Self {
        BlockCreateOptionsBuilder {
            use_mempool: false,
            block_reserved_weight: 0,
            coinbase_output_max_additional_sigops: 0,
        }
    }

    /// A freshly initialised struct.
    pub fn new() -> (r: Self)
        ensures
            r == Self::zeroed(),
    {
        BlockCreateOptionsBuilder {
            use_mempool: false,
            block_reserved_weight: 0,
            coinbase_output_max_additional_sigops: 0,
        }
    }
}

/// The fields of the schema's `BlockWaitOptions`, as set in a request.
#[derive(Clone, Copy, Debug, PartialEq, Eq, Structural)]
pub struct BlockWaitOptionsBuilder {
    pub timeout: Float64,
    pub fee_threshold: i64,
}

impl BlockWaitOptionsBuilder {
    /// All fields zero.
    pub open spec fn zeroed() -> Self {
        BlockWaitOptionsBuilder { timeout: Float64 { bits: 0 }, fee_threshold: 0 }
    }

    /// A freshly initialised struct.
    pub fn new() -> (r: Self)
        ensures
            r == Self::zeroed(),
    {
        BlockWaitOptionsBuilder { timeout: Float64 { bits: 0 }, fee_threshold: 0 }
    }
}

/// `capnp::text::Reader`, a byte slice that is expected, but not known, to
/// hold UTF-8. Its one public field is visible to contracts.
#[verifier::external_type_specification]
pub struct ExTextReader<'a>(capnp::text::Reader<'a>);

/// `capnp::data_list::Reader`, a list of byte strings inside a message.
#[verifier::external_type_specification]
#[verifier::external_body]
pub struct ExDataListReader<'a>(capnp::data_list::Reader<'a>);

/// A `capnp::primitive_list::Reader` of 64-bit integers inside a message.
#[verifier::external_body]
pub struct Int64ListReader<'a> {
    pub reader: capnp::primitive_list::Reader<'a, i64>,
}

/// The integers that a list holds, in list order.
pub uninterp spec fn int64_list_items(list: Int64ListReader<'_>) -> Seq<i64>;

/// The byte strings that a list holds, in list order.
pub uninterp spec fn data_list_items(list: capnp::data_list::Reader<'_>) -> Seq<Seq<u8>>;

/// The text in which `Utf8Error` describes why `bytes` are not UTF-8.
pub uninterp spec fn utf8_error_text(bytes: Seq<u8>) -> Seq<char>;

/// Calls `capnp::primitive_list::Reader::len`: the number of integers in the
/// list.
#[verifier::external_body]
pub(crate) fn int64_list_len(list: &Int64ListReader<'_>) -> (r: u32)
    ensures
        r == int64_list_items(*list).len(),
{
    list.reader.len()
}

/// Calls `capnp::primitive_list::Reader::get`: the integer at `index`. The
/// call panics beyond the end of the list.
#[verifier::external_body]
pub(crate) fn int64_list_get(list: &Int64ListReader<'_>, index: u32) -> (r: i64)
    requires
        index < int64_list_items(*list).len(),
    ensures
        r == int64_list_items(*list)[index as int],
{
    list.reader.get(index)
}

/// Calls `capnp::data_list::Reader::len`: the number of byte strings in the
/// list.
#[verifier::external_body]
pub(crate) fn data_list_len(list: &capnp::data_list::Reader<'_>) -> (r: u32)
    ensures
        r == data_list_items(*list).len(),
{
    list.len()
}

/// Calls `capnp::data_list::Reader::get`: the byte string at `index`. The
/// call panics beyond the end of the list.
///
/// Nothing is claimed about when it fails: besides a malformed pointer, that
/// depends on how much of the message was read before, since every read
/// counts towards the message's traversal limit.
#[verifier::external_body]
pub(crate) fn data_list_get<'a>(list: &capnp::data_list::Reader<'a>, index: u32) -> (r: Result<
    &'a [u8],
    capnp::Error,
>)
    requires
        index < data_list_items(*list).len(),
    ensures
        r matches Ok(bytes) ==> bytes@ == data_list_items(*list)[index as int],
{
    list.get(index)
}

/// Whether `read` is something that reading the element at `index` can give.
/// Two reads of one element may differ: the message's traversal limit may
/// stop the second.
pub closed spec fn data_list_gives(
    list: capnp::data_list::Reader<'_>,
    index: u32,
    read: Result<&[u8], capnp::Error>,
) -> bool {
    call_ensures(data_list_get, (&list, index), read)
}

/// What a read gave is what a read can give, and nothing else is.
pub(crate) proof fn lemma_data_list_gives(
    list: capnp::data_list::Reader<'_>,
    index: u32,
    read: Result<&[u8], capnp::Error>,
)
    ensures
        data_list_gives(list, index, read) <==> call_ensures(data_list_get, (&list, index), read),
{
}

/// A read that succeeds gives the element.
pub proof fn lemma_data_list_gives_items(
    list: capnp::data_list::Reader<'_>,
    index: u32,
    read: Result<&[u8], capnp::Error>,
)
    requires
        data_list_gives(list, index, read),
    ensures
        read matches Ok(bytes) ==> bytes@ == data_list_items(list)[index as int],
{
}

/// Calls `capnp::text::Reader::to_str` and copies what it gives: the
/// characters that the bytes encode, if and only if the bytes are UTF-8, and
/// otherwise the text of the error.
#[verifier::external_body]
pub(crate) fn text_to_str(text: capnp::text::Reader<'_>) -> (r: Result<String, String>)
    ensures
        r is Ok <==> vstd::utf8::valid_utf8(text.0@),
        r matches Ok(s) ==> s@ == vstd::utf8::decode_utf8(text.0@),
        r matches Err(s) ==> s@ == utf8_error_text(text.0@),
{
    text.to_str().map(|s| s.to_owned()).map_err(|e| e.to_string())
}

/// `capnp::Error::failed` makes an error of kind `Failed` with the given
/// text.
pub assume_specification[ capnp::Error::failed ](description: String) -> (r: capnp::Error)
    ensures
        r.kind == capnp::ErrorKind::Failed,
        r.extra == description,
;

} // verus!
