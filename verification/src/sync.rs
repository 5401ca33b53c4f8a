//! The history page: an ordered batch of envelopes sealed with one checksum
//! over the whole page.

use vstd::prelude::*;
use vstd::bytes::{spec_u64_to_le_bytes, u64_to_le_bytes};
use crate::checksum::{checksum, crc32c_of};
use crate::envelope::{
    compare_crc, encode_message, message_views, ContractError, Message, MessageView,
};
use crate::wire::{
    append_bytes, put_tagged_bytes, put_varint_field, tagged_bytes, varint_field,
};

verus! {

/// Field number of the envelopes of a page.
pub const TAG_MESSAGES: u32 = 1;

/// Field number of the server's timestamp.
pub const TAG_SERVER_TIMESTAMP_US: u32 = 2;

/// Field number of the continuation flag.
pub const TAG_HAS_MORE: u32 = 3;

/// Field number of the seal.
pub const TAG_CRC32: u32 = 4;

/// One page of history.
#[derive(Clone, Debug, PartialEq, Eq)]
pub struct SyncResponse {
    pub messages: Vec<Message>,
    pub server_timestamp_us: u64,
    pub has_more: bool,
    pub crc32: u32,
}

/// The mathematical value of a page.
pub struct SyncResponseView {
    pub messages: Seq<MessageView>,
    pub server_timestamp_us: u64,
    pub has_more: bool,
    pub crc32: u32,
}

impl View for SyncResponse {
    type V = SyncResponseView;

    open spec fn view(&self) -> SyncResponseView {
        SyncResponseView {
            messages: message_views(self.messages@),
            server_timestamp_us: self.server_timestamp_us,
            has_more: self.has_more,
            crc32: self.crc32,
        }
    }
}

/// The encodings of the envelopes, one after the other.
pub open spec fn concat_encoded(ms: Seq<MessageView>) -> Seq<u8>
    decreases ms.len(),
{
    if ms.len() == 0 {
        Seq::empty()
    } else {
        concat_encoded(ms.drop_last()) + encode_message(ms.last())
    }
}

/// The tail that closes the sealed bytes: a single `1` when more pages
/// follow, nothing otherwise.
pub open spec fn continuation_tail(has_more: bool) -> Seq<u8> {
    if has_more {
        seq![1u8]
    } else {
        Seq::empty()
    }
}

/// The bytes that the seal covers: every envelope's encoding in order, the
/// server timestamp as eight little-endian bytes, and the continuation tail.
/// The stored seal itself is not part of them.
pub open spec fn sealed_bytes(r: SyncResponseView) -> Seq<u8> {
    concat_encoded(r.messages) + spec_u64_to_le_bytes(r.server_timestamp_us) + continuation_tail(
        r.has_more,
    )
}

/// The seal a page ought to carry.
pub open spec fn batch_crc(r: SyncResponseView) -> u32 {
    crc32c_of(sealed_bytes(r))
}

/// Whether a page carries the seal it ought to.
pub open spec fn seal_matches(r: SyncResponseView) -> bool {
    r.crc32 == batch_crc(r)
}

/// The envelopes of a page as repeated length-delimited fields.
pub open spec fn encode_batch(ms: Seq<MessageView>) -> Seq<u8>
    decreases ms.len(),
{
    if ms.len() == 0 {
        Seq::empty()
    } else {
        encode_batch(ms.drop_last()) + tagged_bytes(TAG_MESSAGES, encode_message(ms.last()))
    }
}

/// The wire form of a page.
pub open spec fn encode_response(r: SyncResponseView) -> Seq<u8> {
    encode_batch(r.messages) + varint_field(TAG_SERVER_TIMESTAMP_US, r.server_timestamp_us)
        + varint_field(TAG_HAS_MORE, if r.has_more { 1u64 } else { 0u64 }) + varint_field(
        TAG_CRC32,
        r.crc32 as u64,
    )
}

/// The seal does not depend on the seal that is stored.
pub proof fn lemma_seal_ignores_stored_crc(r: SyncResponseView, crc: u32)
    ensures
        batch_crc(SyncResponseView { crc32: crc, ..r }) == batch_crc(r),
{
}

/// A page that was given its seal carries the seal it ought to.
pub proof fn lemma_finalized_page_verifies(r: SyncResponseView)
    ensures
        seal_matches(SyncResponseView { crc32: batch_crc(r), ..r }),
{
    lemma_seal_ignores_stored_crc(r, batch_crc(r));
}

impl SyncResponse {
    /// A page with these envelopes, sealed.
    pub fn sealed(messages: Vec<Message>, server_timestamp_us: u64, has_more: bool) -> (page:
        SyncResponse)
        ensures
            page.messages == messages,
            page.server_timestamp_us == server_timestamp_us,
            page.has_more == has_more,
            seal_matches(page@),
    {
        let mut page = SyncResponse { messages, server_timestamp_us, has_more, crc32: 0 };
        page.finalize();
        page
    }

    /// Computes the seal over the page as it stands.
    pub fn compute_crc(&self) -> (crc: u32)
        ensures
            crc == batch_crc(self@),
    {
        let buf = self.sealed_input();
        checksum(buf.as_slice())
    }

    /// The bytes that the seal covers.
    pub fn sealed_input(&self) -> (buf: Vec<u8>)
        ensures
            buf@ == sealed_bytes(self@),
    {
        let ghost views = self@.messages;
        let mut buf: Vec<u8> = Vec::new();
        let mut i: usize = 0;
        while i < self.messages.len()
            invariant
                i <= self.messages@.len(),
                views == self@.messages,
                views.len() == self.messages@.len(),
                buf@ == concat_encoded(views.take(i as int)),
            decreases self.messages@.len() - i,
        {
            self.messages[i].encode(&mut buf);
            proof {
                let upto = views.take(i + 1);
                assert(upto.drop_last() =~= views.take(i as int));
            }
            i = i + 1;
        }
        assert(views.take(i as int) =~= views);
        let stamp = u64_to_le_bytes(self.server_timestamp_us);
        append_bytes(&mut buf, stamp.as_slice());
        if self.has_more {
            buf.push(1u8);
        }
        assert(buf@ =~= sealed_bytes(self@));
        buf
    }

    /// Checks the stored seal against the page and reports both values when
    /// they differ.
    pub fn verify_crc(&self) -> (r: Result<(), ContractError>)
        ensures
            seal_matches(self@) ==> r == Ok::<(), ContractError>(()),
            !seal_matches(self@) ==> r == Err::<(), ContractError>(
                ContractError::CrcMismatch { expected: self.crc32, actual: batch_crc(self@) },
            ),
    {
        compare_crc(self.crc32, self.compute_crc())
    }

    /// Stores the seal of the page in it. Afterwards the page verifies.
    pub fn finalize(&mut self)
        ensures
            final(self).messages == old(self).messages,
            final(self).server_timestamp_us == old(self).server_timestamp_us,
            final(self).has_more == old(self).has_more,
            final(self).crc32 == batch_crc(old(self)@),
            seal_matches(final(self)@),
    {
        let crc = self.compute_crc();
        self.crc32 = crc;
        proof {
            lemma_finalized_page_verifies(old(self)@);
        }
    }

    /// The wire form of the page.
    pub fn encode_to_vec(&self) -> (out: Vec<u8>)
        ensures
            out@ == encode_response(self@),
    {
        let ghost views = self@.messages;
        let mut out: Vec<u8> = Vec::new();
        let mut i: usize = 0;
        while i < self.messages.len()
            invariant
                i <= self.messages@.len(),
                views == self@.messages,
                views.len() == self.messages@.len(),
                out@ == encode_batch(views.take(i as int)),
            decreases self.messages@.len() - i,
        {
            let item = self.messages[i].encode_to_vec();
            put_tagged_bytes(TAG_MESSAGES, item.as_slice(), &mut out);
            proof {
                let upto = views.take(i + 1);
                assert(upto.drop_last() =~= views.take(i as int));
            }
            i = i + 1;
        }
        assert(views.take(i as int) =~= views);
        put_varint_field(TAG_SERVER_TIMESTAMP_US, self.server_timestamp_us, &mut out);
        let flag: u64 = if self.has_more { 1 } else { 0 };
        put_varint_field(TAG_HAS_MORE, flag, &mut out);
        put_varint_field(TAG_CRC32, self.crc32 as u64, &mut out);
        out
    }
}

} // verus!
