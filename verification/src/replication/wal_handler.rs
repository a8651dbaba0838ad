//! Frames of the streaming replication protocol. A frame begins with a tag
//! byte: `w` carries WAL data, `k` is a keep-alive of the server; any other
//! tag is passed over.

use crate::grpc::state::{counted, SharedState, SharedStateView};
use crate::pipeline::schema_cache::{
    arity_agrees, cache_after, delta_of, opt_delta, SchemaCache, SchemaDelta, SchemaDeltaView,
    TableSchemaView,
};
use crate::source::parser::{parse_message, CdcMessage, CdcMessageView, PgOutputParser};
use crate::source::postgres::{build_standby_status_update, standby_status_frame};
use crate::source::wire::{be_bytes, be_value, lemma_be_round_trip, lemma_pow256_values, ParseError};
use bytes::Buf;
use bytes::Bytes;
use vstd::prelude::*;
use vstd::slice::slice_subrange;

verus! {

/// The byte buffer of the `bytes` crate, in which frames arrive.
#[verifier::external_type_specification]
#[verifier::external_body]
pub struct ExBytes(bytes::Bytes);

/// The bytes that a buffer holds, from its current position to its end.
pub uninterp spec fn buffer_contents(b: Bytes) -> Seq<u8>;

/// `Bytes::len`: the number of bytes that the buffer holds.
#[verifier::external_body]
fn buffer_len(b: &Bytes) -> (n: usize)
    ensures
        n == buffer_contents(*b).len(),
{
    b.len()
}

/// `Buf::get_u8` on `Bytes`: returns the first byte and advances the buffer
/// by one. The crate panics on an empty buffer, which `requires` leaves out.
#[verifier::external_body]
fn buffer_get_u8(b: &mut Bytes) -> (v: u8)
    requires
        buffer_contents(*old(b)).len() >= 1,
    ensures
        v == buffer_contents(*old(b))[0],
        buffer_contents(*final(b)) == buffer_contents(*old(b)).skip(1),
{
    b.get_u8()
}

/// `Buf::get_u64` on `Bytes`: returns the first eight bytes as a number in
/// big-endian order and advances the buffer by eight. The crate panics on
/// fewer than eight bytes, which `requires` leaves out.
#[verifier::external_body]
fn buffer_get_u64(b: &mut Bytes) -> (v: u64)
    requires
        buffer_contents(*old(b)).len() >= 8,
    ensures
        v == be_value(buffer_contents(*old(b)).take(8)),
        buffer_contents(*final(b)) == buffer_contents(*old(b)).skip(8),
{
    b.get_u64()
}

/// `Bytes::slice` over the whole buffer: a second handle on the same bytes.
#[verifier::external_body]
fn buffer_share(b: &Bytes) -> (r: Bytes)
    ensures
        buffer_contents(r) == buffer_contents(*b),
{
    b.slice(..)
}

/// `Bytes::as_ref`: the bytes of the buffer as a slice.
#[verifier::external_body]
fn buffer_as_slice(b: &Bytes) -> (r: &[u8])
    ensures
        r@ == buffer_contents(*b),
{
    b.as_ref()
}

/// A frame of the replication stream.
#[derive(Debug, PartialEq, Eq)]
pub enum WalMessage {
    /// WAL data: the LSN at which it ends and the payload.
    XLogData { lsn: u64, data: Bytes },
    /// A keep-alive of the server at `lsn`, which may ask for a reply.
    KeepAlive { lsn: u64, reply_requested: bool },
    /// A frame of unknown tag.
    Unknown(u8),
}

/// A `WalMessage` as plain values.
pub enum WalMessageView {
    XLogData { lsn: u64, data: Seq<u8> },
    KeepAlive { lsn: u64, reply_requested: bool },
    Unknown(u8),
}

impl View for WalMessage {
    type V = WalMessageView;

    open spec fn view(&self) -> WalMessageView {
        match self {
            WalMessage::XLogData { lsn, data } => WalMessageView::XLogData {
                lsn: *lsn,
                data: buffer_contents(*data),
            },
            WalMessage::KeepAlive { lsn, reply_requested } => WalMessageView::KeepAlive {
                lsn: *lsn,
                reply_requested: *reply_requested,
            },
            WalMessage::Unknown(tag) => WalMessageView::Unknown(*tag),
        }
    }
}

/// Tag `w` of a frame with WAL data.
pub const TAG_XLOG_DATA: u8 = 0x77;

/// Tag `k` of a keep-alive.
pub const TAG_KEEPALIVE: u8 = 0x6B;

/// Length of the header of WAL data after the tag: start, end, time.
pub const XLOG_HEADER_LEN: usize = 24;

/// Length of a keep-alive after the tag: end, time, reply flag.
pub const KEEPALIVE_LEN: usize = 17;

/// The frame that bytes hold. An empty buffer holds none. WAL data is the
/// tag, the eight bytes of the WAL start, the eight of the WAL end, which is
/// the LSN of the frame, the eight of the time, and the payload. A
/// keep-alive is the tag, the WAL end, the time and a byte that is 1 where a
/// reply is asked for. Either one that is cut short holds no frame. Any
/// other tag is an unknown frame.
pub open spec fn frame_of(s: Seq<u8>) -> Option<WalMessageView> {
    if s.len() == 0 {
        None
    } else if s[0] == TAG_XLOG_DATA {
        if s.len() - 1 < XLOG_HEADER_LEN {
            None
        } else {
            Some(
                WalMessageView::XLogData {
                    lsn: be_value(s.subrange(9, 17)) as u64,
                    data: s.skip(25),
                },
            )
        }
    } else if s[0] == TAG_KEEPALIVE {
        if s.len() - 1 < KEEPALIVE_LEN {
            None
        } else {
            Some(
                WalMessageView::KeepAlive {
                    lsn: be_value(s.subrange(1, 9)) as u64,
                    reply_requested: s[17] == 1,
                },
            )
        }
    } else {
        Some(WalMessageView::Unknown(s[0]))
    }
}

/// How many bytes reading a frame takes from the buffer: none from an empty
/// buffer, the whole header of a frame that is held, and the tag alone of a
/// frame that is cut short or unknown.
pub open spec fn frame_consumed(s: Seq<u8>) -> int {
    if s.len() == 0 {
        0
    } else if s[0] == TAG_XLOG_DATA && s.len() - 1 >= XLOG_HEADER_LEN {
        25
    } else if s[0] == TAG_KEEPALIVE && s.len() - 1 >= KEEPALIVE_LEN {
        18
    } else {
        1
    }
}

/// The bytes of a frame as the server writes it. WAL data is written with
/// the WAL start `wal_start`, and both WAL data and keep-alives with the time
/// `timestamp`, neither of which a frame read back keeps.
pub open spec fn encode_frame(m: WalMessageView, wal_start: u64, timestamp: u64) -> Seq<u8> {
    match m {
        WalMessageView::XLogData { lsn, data } => seq![TAG_XLOG_DATA] + be_bytes(
            wal_start as nat,
            8,
        ) + be_bytes(lsn as nat, 8) + be_bytes(timestamp as nat, 8) + data,
        WalMessageView::KeepAlive { lsn, reply_requested } => seq![TAG_KEEPALIVE] + be_bytes(
            lsn as nat,
            8,
        ) + be_bytes(timestamp as nat, 8) + seq![
            if reply_requested {
                1u8
            } else {
                0u8
            },
        ],
        WalMessageView::Unknown(tag) => seq![tag],
    }
}

/// Reading a frame inverts writing it: the bytes of a frame, whatever its
/// WAL start and time, hold that frame. This holds of WAL data, of
/// keep-alives, and of unknown frames whose tag is not one of the two known
/// tags.
pub proof fn lemma_frame_round_trip(m: WalMessageView, wal_start: u64, timestamp: u64)
    requires
        m matches WalMessageView::Unknown(tag) ==> tag != TAG_XLOG_DATA && tag != TAG_KEEPALIVE,
    ensures
        frame_of(encode_frame(m, wal_start, timestamp)) == Some(m),
{
    lemma_pow256_values();
    let s = encode_frame(m, wal_start, timestamp);
    match m {
        WalMessageView::XLogData { lsn, data } => {
            lemma_be_round_trip(wal_start as nat, 8);
            lemma_be_round_trip(lsn as nat, 8);
            lemma_be_round_trip(timestamp as nat, 8);
            assert(s.subrange(9, 17) == be_bytes(lsn as nat, 8));
            assert(s.skip(25) == data);
        },
        WalMessageView::KeepAlive { lsn, reply_requested } => {
            lemma_be_round_trip(lsn as nat, 8);
            lemma_be_round_trip(timestamp as nat, 8);
            assert(s.subrange(1, 9) == be_bytes(lsn as nat, 8));
        },
        WalMessageView::Unknown(tag) => {},
    }
}

/// The plain values of an optional frame.
pub open spec fn opt_frame(m: Option<WalMessage>) -> Option<WalMessageView> {
    match m {
        Some(v) => Some(v@),
        None => None,
    }
}

/// Reads the frame at the start of `bytes` and advances the buffer past what
/// was read of it.
pub fn parse_replication_message(bytes: &mut Bytes) -> (r: Option<WalMessage>)
    ensures
        opt_frame(r) == frame_of(buffer_contents(*old(bytes))),
        buffer_contents(*final(bytes)) == buffer_contents(*old(bytes)).skip(
            frame_consumed(buffer_contents(*old(bytes))),
        ),
{
    let ghost whole = buffer_contents(*bytes);
    if buffer_len(bytes) == 0 {
        return None;
    }
    let tag = buffer_get_u8(bytes);
    if tag == TAG_XLOG_DATA {
        if buffer_len(bytes) < XLOG_HEADER_LEN {
            return None;
        }
        let _wal_start = buffer_get_u64(bytes);
        let wal_end = buffer_get_u64(bytes);
        let _timestamp = buffer_get_u64(bytes);
        proof {
            assert(whole.skip(1).skip(8).take(8) == whole.subrange(9, 17));
            assert(whole.skip(1).skip(8).skip(8).skip(8) == whole.skip(25));
        }
        Some(WalMessage::XLogData { lsn: wal_end, data: buffer_share(bytes) })
    } else if tag == TAG_KEEPALIVE {
        if buffer_len(bytes) < KEEPALIVE_LEN {
            return None;
        }
        let wal_end = buffer_get_u64(bytes);
        let _timestamp = buffer_get_u64(bytes);
        let reply_requested = buffer_get_u8(bytes) == 1;
        proof {
            assert(whole.skip(1).take(8) == whole.subrange(1, 9));
        }
        Some(WalMessage::KeepAlive { lsn: wal_end, reply_requested })
    } else {
        Some(WalMessage::Unknown(tag))
    }
}

/// A decoded message with the LSN of the frame that carried it.
#[derive(Debug, Clone, PartialEq, Eq)]
pub struct CdcEvent {
    pub lsn: u64,
    pub message: CdcMessage,
}

/// A `CdcEvent` as plain values.
pub struct CdcEventView {
    pub lsn: u64,
    pub message: CdcMessageView,
}

impl View for CdcEvent {
    type V = CdcEventView;

    open spec fn view(&self) -> CdcEventView {
        CdcEventView { lsn: self.lsn, message: self.message@ }
    }
}

impl DeepView for CdcEvent {
    type V = CdcEventView;

    open spec fn deep_view(&self) -> CdcEventView {
        self@
    }
}

/// What a frame of WAL data leads to.
#[derive(Debug, Clone, PartialEq, Eq)]
pub enum XLogOutcome {
    /// The payload held a message: the event goes into the channel, however
    /// full the channel is. `delta` is what the message, if it describes a
    /// relation, adds to the description that was cached; it goes to the
    /// batcher beside the event.
    Forward { event: CdcEvent, delta: Option<SchemaDelta> },
    /// The payload was empty or of a type that is not a message.
    Nothing,
    /// The payload could not be decoded, or a row image in it does not have
    /// the number of columns of its relation; the frame is passed over.
    Malformed(ParseError),
}

/// An `XLogOutcome` as plain values.
pub enum XLogOutcomeView {
    Forward { event: CdcEventView, delta: Option<SchemaDeltaView> },
    Nothing,
    Malformed(ParseError),
}

impl View for XLogOutcome {
    type V = XLogOutcomeView;

    open spec fn view(&self) -> XLogOutcomeView {
        match self {
            XLogOutcome::Forward { event, delta } => XLogOutcomeView::Forward {
                event: event@,
                delta: opt_delta(*delta),
            },
            XLogOutcome::Nothing => XLogOutcomeView::Nothing,
            XLogOutcome::Malformed(e) => XLogOutcomeView::Malformed(*e),
        }
    }
}

/// What the payload `data` of a frame at `lsn` leads to, given the cache of
/// relations. A row message whose image does not have the number of columns
/// of its relation is a protocol mismatch.
pub open spec fn xlog_outcome(
    data: Seq<u8>,
    lsn: u64,
    cache: Map<u32, TableSchemaView>,
) -> XLogOutcomeView {
    if data.len() == 0 {
        XLogOutcomeView::Nothing
    } else {
        match parse_message(data[0], data.skip(1)) {
            Ok(Some(message)) => if arity_agrees(cache, message) {
                XLogOutcomeView::Forward {
                    event: CdcEventView { lsn, message },
                    delta: delta_of(cache, message),
                }
            } else {
                XLogOutcomeView::Malformed(ParseError::ProtocolMismatch)
            },
            Ok(None) => XLogOutcomeView::Nothing,
            Err(e) => XLogOutcomeView::Malformed(e),
        }
    }
}

/// The cache after a frame of WAL data: a forwarded description of a relation
/// replaces what was cached for the relation; nothing else changes the
/// cache.
pub open spec fn cache_after_xlog(
    cache: Map<u32, TableSchemaView>,
    outcome: XLogOutcomeView,
) -> Map<u32, TableSchemaView> {
    match outcome {
        XLogOutcomeView::Forward { event, .. } => cache_after(cache, event.message),
        _ => cache,
    }
}

/// The shared state after a frame of WAL data: the current LSN is the
/// frame's; where an event is forwarded, it is counted and the pending
/// events are the slots of the channel that are taken.
pub open spec fn state_after_xlog(
    state: SharedStateView,
    outcome: XLogOutcomeView,
    lsn: u64,
    free_slots: usize,
    flush_size: usize,
) -> SharedStateView {
    if outcome is Forward {
        SharedStateView {
            current_lsn: lsn,
            events_processed: counted(state.events_processed),
            events_last_second: counted(state.events_last_second),
            pending_events: (flush_size * 2 - free_slots) as u64,
            ..state
        }
    } else {
        SharedStateView { current_lsn: lsn, ..state }
    }
}

/// Takes in a frame of WAL data that ends at `lsn`: records the LSN, decodes
/// the payload, holds a row message against its relation, takes a
/// description of a relation into the cache and, where the payload holds a
/// message, counts the event and hands it out for the channel. `free_slots`
/// is the number of free slots of the channel, whose depth is twice the
/// flush size.
///
/// The event is handed out whether or not the channel has a free slot: a
/// full channel makes the sender wait, it never loses the event.
pub fn handle_xlog_data(
    data: &Bytes,
    lsn: u64,
    free_slots: usize,
    shared_state: &mut SharedState,
    flush_size: usize,
    schema_cache: &mut SchemaCache,
) -> (r: XLogOutcome)
    requires
        flush_size * 2 <= usize::MAX,
        free_slots <= flush_size * 2,
    ensures
        r@ == xlog_outcome(buffer_contents(*data), lsn, old(schema_cache)@),
        final(schema_cache)@ == cache_after_xlog(old(schema_cache)@, r@),
        final(shared_state)@ == state_after_xlog(
            old(shared_state)@,
            r@,
            lsn,
            free_slots,
            flush_size,
        ),
{
    shared_state.update_lsn(lsn);
    let payload = buffer_as_slice(data);
    if payload.len() == 0 {
        return XLogOutcome::Nothing;
    }
    let tag = payload[0];
    let body = slice_subrange(payload, 1, payload.len());
    match PgOutputParser::parse(tag, body) {
        Ok(Some(message)) => {
            match schema_cache.check_arity(&message) {
                Ok(_) => {},
                Err(e) => {
                    return XLogOutcome::Malformed(e);
                },
            }
            let delta = schema_cache.observe(&message);
            shared_state.increment_events();
            let pending = flush_size * 2 - free_slots;
            shared_state.set_pending(pending as u64);
            XLogOutcome::Forward { event: CdcEvent { lsn, message }, delta }
        },
        Ok(None) => XLogOutcome::Nothing,
        Err(e) => XLogOutcome::Malformed(e),
    }
}

/// The reply that a keep-alive is owed: the standby status update for the
/// LSN, if and only if the server asked for a reply.
pub fn handle_keepalive(lsn: u64, reply_requested: bool, timestamp: u64) -> (r: Option<Vec<u8>>)
    ensures
        reply_requested ==> (r matches Some(frame) && frame@ == standby_status_frame(
            lsn,
            timestamp,
        )),
        !reply_requested ==> r is None,
{
    if reply_requested {
        Some(build_standby_status_update(lsn, timestamp))
    } else {
        None
    }
}

} // verus!
