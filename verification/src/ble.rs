//! BLE framing over GATT: fragmentation of a message into one
//! initialization frame and a run of continuation frames bounded by the
//! negotiated MTU, reassembly of such a run, keep-alive classification, and
//! the channel-status transitions around send, receive and cancellation.

use vstd::prelude::*;

use crate::bytes::spec_u16_be;
use crate::errors::{CtapError, Error, TransportError};
use crate::transport::ChannelStatus;

verus! {

/// Initialization-frame command byte: PING.
pub const BLE_CMD_PING: u8 = 0x81;

/// Initialization-frame command byte: KEEPALIVE.
pub const BLE_CMD_KEEPALIVE: u8 = 0x82;

/// Initialization-frame command byte: MSG (carries an APDU or CBOR frame).
pub const BLE_CMD_MSG: u8 = 0x83;

/// Initialization-frame command byte: CANCEL.
pub const BLE_CMD_CANCEL: u8 = 0xBE;

/// Initialization-frame command byte: ERROR.
pub const BLE_CMD_ERROR: u8 = 0xBF;

/// The view of a frame list: each frame as its byte sequence.
pub open spec fn spec_frames_view(frames: &Vec<Vec<u8>>) -> Seq<Seq<u8>> {
    Seq::new(frames@.len(), |i: int| frames@[i]@)
}

/// The continuation frames that fragmentation produces for the data left
/// after the initialization frame: each carries its sequence byte (starting
/// at `seq0`) and up to `size` payload bytes.
pub open spec fn spec_cont_frames(data: Seq<u8>, size: int, seq0: int) -> Seq<Seq<u8>>
    decreases data.len(),
{
    if size <= 0 || data.len() == 0 {
        Seq::empty()
    } else if data.len() <= size {
        seq![seq![seq0 as u8] + data]
    } else {
        seq![seq![seq0 as u8] + data.take(size)] + spec_cont_frames(
            data.skip(size),
            size,
            seq0 + 1,
        )
    }
}

/// The frames that fragmentation produces for a whole message: an
/// initialization frame `CMD | HLEN | LLEN | DATA…` carrying the first
/// `MTU - 3` bytes, then continuation frames `SEQ | DATA…` of `MTU - 1`
/// bytes each.
pub open spec fn spec_fragment(cmd: u8, msg: Seq<u8>, mtu: int) -> Seq<Seq<u8>> {
    let first = if msg.len() <= mtu - 3 {
        msg.len() as int
    } else {
        mtu - 3
    };
    seq![
        seq![cmd, ((msg.len() as nat) / 256) as u8, ((msg.len() as nat) % 256) as u8] + msg.take(
            first,
        ),
    ] + spec_cont_frames(msg.skip(first), mtu - 1, 0)
}

/// The continuation frames of a run are well-formed: each is non-empty and
/// carries the sequence byte its position demands, counted from 0 and never
/// reaching 0x80.
pub open spec fn spec_conts_ok(frames: Seq<Seq<u8>>) -> bool {
    forall|i: int|
        0 <= i < frames.len() ==> (#[trigger] frames[i]).len() >= 1 && frames[i][0] as int == i
            && i < 0x80
}

/// The payload bytes carried by a run of continuation frames, in order.
pub open spec fn spec_cont_bodies(frames: Seq<Seq<u8>>) -> Seq<u8>
    decreases frames.len(),
{
    if frames.len() == 0 {
        Seq::empty()
    } else {
        frames[0].skip(1) + spec_cont_bodies(frames.skip(1))
    }
}

/// What reassembly yields from a frame list: the initialization frame's
/// command and the concatenated payload, provided the first frame is a
/// well-formed initialization frame, the continuations carry consecutive
/// sequence bytes, and the payload's length is exactly the declared total.
pub open spec fn spec_reassemble(frames: Seq<Seq<u8>>) -> Option<(u8, Seq<u8>)> {
    if frames.len() >= 1 && frames[0].len() >= 3 && frames[0][0] >= 0x80 && spec_conts_ok(
        frames.skip(1),
    ) {
        let total = (frames[0][1] as int) * 256 + (frames[0][2] as int);
        let body = frames[0].skip(3) + spec_cont_bodies(frames.skip(1));
        if body.len() == total {
            Some((frames[0][0], body))
        } else {
            None
        }
    } else {
        None
    }
}

/// Appending one frame to a run appends its payload to the run's payload.
proof fn lemma_cont_bodies_push(frames: Seq<Seq<u8>>, f: Seq<u8>)
    ensures
        spec_cont_bodies(frames.push(f)) == spec_cont_bodies(frames) + f.skip(1),
    decreases frames.len(),
{
    if frames.len() == 0 {
        assert(frames.push(f)[0] == f);
        assert(frames.push(f).skip(1) =~= Seq::<Seq<u8>>::empty());
        assert(spec_cont_bodies(frames.push(f)) =~= f.skip(1) + spec_cont_bodies(
            Seq::<Seq<u8>>::empty(),
        ));
        assert(spec_cont_bodies(frames.push(f)) =~= f.skip(1));
        assert(spec_cont_bodies(frames) + f.skip(1) =~= f.skip(1));
    } else {
        assert(frames.push(f).skip(1) =~= frames.skip(1).push(f));
        lemma_cont_bodies_push(frames.skip(1), f);
        assert(spec_cont_bodies(frames.push(f)) =~= spec_cont_bodies(frames) + f.skip(1));
    }
}

/// The continuation frames produced for `data` are well-formed (when their
/// count stays within the sequence-byte space) and carry exactly `data`.
proof fn lemma_cont_frames_props(data: Seq<u8>, size: int, seq0: int)
    requires
        size >= 1,
        0 <= seq0,
        seq0 + spec_cont_frames(data, size, seq0).len() <= 0x80,
    ensures
        spec_cont_bodies(spec_cont_frames(data, size, seq0)) == data,
        forall|i: int|
            0 <= i < spec_cont_frames(data, size, seq0).len() ==> (#[trigger] spec_cont_frames(
                data,
                size,
                seq0,
            )[i]).len() >= 1 && spec_cont_frames(data, size, seq0)[i][0] as int == seq0 + i,
    decreases data.len(),
{
    let frames = spec_cont_frames(data, size, seq0);
    if data.len() == 0 {
        assert(spec_cont_bodies(frames) =~= data);
    } else if data.len() <= size {
        assert(frames[0] == seq![seq0 as u8] + data);
        assert(frames.skip(1) =~= Seq::<Seq<u8>>::empty());
        assert(spec_cont_bodies(frames) =~= frames[0].skip(1) + spec_cont_bodies(
            Seq::<Seq<u8>>::empty(),
        ));
        assert((seq![seq0 as u8] + data).skip(1) =~= data);
        assert(spec_cont_bodies(frames) =~= data);
    } else {
        let head = seq![seq0 as u8] + data.take(size);
        let rest = spec_cont_frames(data.skip(size), size, seq0 + 1);
        lemma_cont_frames_props(data.skip(size), size, seq0 + 1);
        assert(frames[0] == head);
        assert(frames.skip(1) =~= rest);
        assert(spec_cont_bodies(frames) =~= head.skip(1) + spec_cont_bodies(rest));
        assert(head.skip(1) =~= data.take(size));
        assert(data.take(size) + data.skip(size) =~= data);
        assert(spec_cont_bodies(frames) =~= data);
        assert forall|i: int| 0 <= i < frames.len() implies (#[trigger] frames[i]).len() >= 1
            && frames[i][0] as int == seq0 + i by {
            if i == 0 {
                assert(frames[0] =~= head);
            } else {
                assert(frames[i] =~= rest[i - 1]);
            }
        }
    }
}

/// Fragmentation then reassembly yields the identical byte sequence: for
/// any message whose 16-bit length fits the initialization header and whose
/// continuation count fits the sequence-byte space, and any MTU of at least
/// 4 bytes, reassembling the fragmented frames returns the command and the
/// message unchanged.
pub proof fn lemma_fragment_reassemble(cmd: u8, msg: Seq<u8>, mtu: int)
    requires
        mtu >= 4,
        msg.len() <= 0xFFFF,
        cmd >= 0x80,
        spec_fragment(cmd, msg, mtu).len() <= 0x81,
    ensures
        spec_reassemble(spec_fragment(cmd, msg, mtu)) == Some((cmd, msg)),
{
    let frames = spec_fragment(cmd, msg, mtu);
    let first = if msg.len() <= mtu - 3 {
        msg.len() as int
    } else {
        mtu - 3
    };
    let init = seq![cmd, ((msg.len() as nat) / 256) as u8, ((msg.len() as nat) % 256) as u8]
        + msg.take(first);
    let conts = spec_cont_frames(msg.skip(first), mtu - 1, 0);
    assert(frames[0] =~= init);
    assert(frames.skip(1) =~= conts);
    lemma_cont_frames_props(msg.skip(first), mtu - 1, 0);
    assert(spec_conts_ok(frames.skip(1)));
    assert(init.skip(3) =~= msg.take(first));
    assert(msg.take(first) + msg.skip(first) =~= msg);
    assert(init.skip(3) + spec_cont_bodies(frames.skip(1)) =~= msg);
    assert((msg.len() as nat) / 256 < 256);
    assert((init[1] as int) * 256 + (init[2] as int) == msg.len());
}

/// Fragment a message into BLE frames for the given MTU: one
/// initialization frame with the command and the big-endian total length,
/// then continuation frames with consecutive sequence bytes. Fails with
/// `InvalidEndpoint` when the MTU cannot carry the three-byte header, and
/// with `InvalidLength` when the message outgrows the 16-bit length field
/// or the sequence-byte space.
pub fn fragment_message(cmd: u8, msg: &Vec<u8>, mtu: usize) -> (r: Result<Vec<Vec<u8>>, Error>)
    requires
        cmd >= 0x80,
    ensures
        r matches Ok(frames) ==> spec_frames_view(&frames) == spec_fragment(
            cmd,
            msg@,
            mtu as int,
        ) && mtu >= 4 && msg@.len() <= 0xFFFF && spec_fragment(cmd, msg@, mtu as int).len()
            <= 0x81,
        r is Err <==> (mtu < 4 || msg@.len() > 0xFFFF || spec_fragment(
            cmd,
            msg@,
            mtu as int,
        ).len() > 0x81),
        mtu < 4 ==> r == Err::<Vec<Vec<u8>>, Error>(
            Error::Transport(TransportError::InvalidEndpoint),
        ),
        mtu >= 4 && r is Err ==> r == Err::<Vec<Vec<u8>>, Error>(
            Error::Ctap(CtapError::InvalidLength),
        ),
{
    if mtu < 4 {
        return Err(Error::Transport(TransportError::InvalidEndpoint));
    }
    if msg.len() > 0xFFFF {
        return Err(Error::Ctap(CtapError::InvalidLength));
    }
    let first: usize = if msg.len() <= mtu - 3 {
        msg.len()
    } else {
        mtu - 3
    };
    let mut init: Vec<u8> = Vec::new();
    init.push(cmd);
    init.push((msg.len() / 256) as u8);
    init.push((msg.len() % 256) as u8);
    let mut i: usize = 0;
    while i < first
        invariant
            i <= first <= msg@.len(),
            init@ =~= seq![cmd, ((msg@.len() as nat) / 256) as u8, ((msg@.len() as nat) % 256) as u8]
                + msg@.subrange(0, i as int),
        decreases first - i,
    {
        init.push(msg[i]);
        i = i + 1;
    }
    assert(init@ =~= seq![cmd, ((msg@.len() as nat) / 256) as u8, ((msg@.len() as nat) % 256) as u8]
        + msg@.take(first as int));
    let ghost conts_total = spec_cont_frames(msg@.skip(first as int), mtu as int - 1, 0);
    let mut frames: Vec<Vec<u8>> = Vec::new();
    frames.push(init);
    let size: usize = mtu - 1;
    let mut off: usize = first;
    let mut seqn: usize = 0;
    while off < msg.len()
        invariant
            cmd >= 0x80,
            4 <= mtu,
            size == mtu - 1,
            msg@.len() <= 0xFFFF,
            first <= off <= msg@.len(),
            first == (if msg@.len() <= mtu - 3 {
                msg@.len() as int
            } else {
                mtu as int - 3
            }),
            seqn <= 0x80,
            frames@.len() == 1 + seqn,
            conts_total == spec_cont_frames(msg@.skip(first as int), mtu as int - 1, 0),
            frames@[0]@ =~= spec_fragment(cmd, msg@, mtu as int)[0],
            conts_total =~= spec_frames_view(&frames).skip(1) + spec_cont_frames(
                msg@.skip(off as int),
                mtu as int - 1,
                seqn as int,
            ),
        decreases msg@.len() - off,
    {
        if seqn == 0x80 {
            proof {
                assert(spec_cont_frames(msg@.skip(off as int), mtu as int - 1, seqn as int).len()
                    >= 1);
                assert(conts_total.len() >= 0x81);
                assert(spec_fragment(cmd, msg@, mtu as int) =~~= seq![
                    spec_fragment(cmd, msg@, mtu as int)[0],
                ] + conts_total);
                assert(spec_fragment(cmd, msg@, mtu as int).len() == 1 + conts_total.len());
            }
            return Err(Error::Ctap(CtapError::InvalidLength));
        }
        let chunk_end: usize = if msg.len() - off <= size {
            msg.len()
        } else {
            off + size
        };
        let mut fr: Vec<u8> = Vec::new();
        fr.push(seqn as u8);
        let mut j: usize = off;
        while j < chunk_end
            invariant
                off <= j <= chunk_end <= msg@.len(),
                fr@ =~= seq![(seqn as u8)] + msg@.subrange(off as int, j as int),
            decreases chunk_end - j,
        {
            fr.push(msg[j]);
            j = j + 1;
        }
        proof {
            let rem = msg@.skip(off as int);
            assert(rem.len() == msg@.len() - off);
            if rem.len() <= size {
                assert(rem.take(rem.len() as int) =~= rem);
                assert(msg@.subrange(off as int, chunk_end as int) =~= rem);
            } else {
                assert(msg@.subrange(off as int, chunk_end as int) =~= rem.take(size as int));
            }
            assert(msg@.skip(chunk_end as int) =~= rem.skip(chunk_end - off));
        }
        let ghost old_frames = frames@;
        frames.push(fr);
        proof {
            assert(spec_frames_view(&frames).skip(1) =~= Seq::new(
                old_frames.len(),
                |k: int| old_frames[k]@,
            ).skip(1).push(fr@));
            let rem = msg@.skip(off as int);
            let tail = spec_cont_frames(rem, mtu as int - 1, seqn as int);
            if rem.len() <= size {
                assert(tail =~= seq![seq![(seqn as u8)] + rem]);
                assert(fr@ =~= seq![(seqn as u8)] + rem);
            } else {
                assert(fr@ =~= seq![(seqn as u8)] + rem.take(size as int));
            }
            assert(conts_total =~= spec_frames_view(&frames).skip(1) + spec_cont_frames(
                msg@.skip(chunk_end as int),
                mtu as int - 1,
                seqn as int + 1,
            ));
        }
        off = chunk_end;
        seqn = seqn + 1;
    }
    proof {
        assert(msg@.skip(off as int).len() == 0);
        assert(spec_cont_frames(msg@.skip(off as int), mtu as int - 1, seqn as int)
            =~= Seq::<Seq<u8>>::empty());
        assert(conts_total =~= spec_frames_view(&frames).skip(1));
        assert(spec_fragment(cmd, msg@, mtu as int) =~~= seq![
            spec_fragment(cmd, msg@, mtu as int)[0],
        ] + conts_total);
        assert(spec_frames_view(&frames) =~~= seq![spec_frames_view(&frames)[0]]
            + spec_frames_view(&frames).skip(1));
        assert(spec_frames_view(&frames) =~~= spec_fragment(cmd, msg@, mtu as int));
    }
    Ok(frames)
}

/// Reassemble a run of BLE frames into the command byte and the payload.
/// Fails with `ConnectionLost` when the run is not a well-formed
/// fragmentation: no initialization frame, a continuation whose sequence
/// byte skips or wraps, or a payload that misses its declared total.
pub fn reassemble(frames: &Vec<Vec<u8>>) -> (r: Result<(u8, Vec<u8>), Error>)
    ensures
        r matches Ok((cmd, body)) ==> spec_reassemble(spec_frames_view(frames)) == Some(
            (cmd, body@),
        ),
        r is Err <==> spec_reassemble(spec_frames_view(frames)) is None,
        r is Err ==> r == Err::<(u8, Vec<u8>), Error>(
            Error::Transport(TransportError::ConnectionLost),
        ),
{
    let ghost view = spec_frames_view(frames);
    if frames.len() == 0 {
        return Err(Error::Transport(TransportError::ConnectionLost));
    }
    let init = &frames[0];
    if init.len() < 3 {
        return Err(Error::Transport(TransportError::ConnectionLost));
    }
    let cmd = init[0];
    if cmd < 0x80 {
        return Err(Error::Transport(TransportError::ConnectionLost));
    }
    let total: usize = (init[1] as usize) * 256 + (init[2] as usize);
    let mut body: Vec<u8> = Vec::new();
    let mut i: usize = 3;
    while i < init.len()
        invariant
            3 <= i <= init@.len(),
            body@ =~= init@.subrange(3, i as int),
        decreases init@.len() - i,
    {
        body.push(init[i]);
        i = i + 1;
    }
    assert(body@ =~= view[0].skip(3));
    let mut k: usize = 1;
    while k < frames.len()
        invariant
            1 <= k <= frames@.len(),
            view == spec_frames_view(frames),
            view.len() == frames@.len(),
            forall|j: int| 0 <= j < view.len() ==> view[j] == frames@[j]@,
            forall|j: int|
                0 <= j < k - 1 ==> (#[trigger] view.skip(1)[j]).len() >= 1 && view.skip(
                    1,
                )[j][0] as int == j && j < 0x80,
            body@ =~= view[0].skip(3) + spec_cont_bodies(view.skip(1).take(k - 1)),
        decreases frames@.len() - k,
    {
        let fr = &frames[k];
        if fr.len() < 1 || k - 1 >= 0x80 || fr[0] as usize != k - 1 {
            proof {
                assert(view.skip(1)[k - 1] == fr@);
                assert(!spec_conts_ok(view.skip(1)));
            }
            return Err(Error::Transport(TransportError::ConnectionLost));
        }
        let mut j: usize = 1;
        let ghost body_before = body@;
        while j < fr.len()
            invariant
                1 <= j <= fr@.len(),
                body@ =~= body_before + fr@.subrange(1, j as int),
            decreases fr@.len() - j,
        {
            body.push(fr[j]);
            j = j + 1;
        }
        proof {
            assert(body@ =~= body_before + fr@.skip(1));
            lemma_cont_bodies_push(view.skip(1).take(k - 1), fr@);
            assert(view.skip(1).take(k - 1).push(fr@) =~= view.skip(1).take(k as int));
            assert(view.skip(1).take(k as int)[k - 1] == fr@);
        }
        k = k + 1;
    }
    proof {
        assert(view.skip(1).take(frames@.len() - 1) =~= view.skip(1));
        assert(spec_conts_ok(view.skip(1)));
    }
    if body.len() != total {
        return Err(Error::Transport(TransportError::ConnectionLost));
    }
    Ok((cmd, body))
}

/// Keep-alive status byte: the authenticator is processing.
pub const BLE_KEEPALIVE_PROCESSING: u8 = 0x01;

/// Keep-alive status byte: user presence is needed.
pub const BLE_KEEPALIVE_UPNEEDED: u8 = 0x02;

/// What a notification frame means to the receive loop.
#[derive(Clone, Copy, Debug, PartialEq, Eq, Structural)]
pub enum BleNotification {
    /// A KEEPALIVE with its status byte: reset the inactivity timer and
    /// keep waiting; the frame is no part of the payload and advances no
    /// sequence.
    KeepAlive(u8),
    /// An ERROR frame with its code.
    ErrorFrame(u8),
    /// Part of the response payload: feed it to reassembly.
    Data,
}

/// How the receive loop reads one notification: a KEEPALIVE initialization
/// frame carries its status as the single payload byte; an ERROR frame its
/// code; everything else belongs to the payload. A KEEPALIVE or ERROR
/// frame too short for its one-byte payload is a lost connection.
pub open spec fn spec_classify_notification(frame: Seq<u8>) -> Result<BleNotification, Error> {
    if frame.len() == 0 {
        Err(Error::Transport(TransportError::ConnectionLost))
    } else if frame[0] == BLE_CMD_KEEPALIVE {
        if frame.len() >= 4 {
            Ok(BleNotification::KeepAlive(frame[3]))
        } else {
            Err(Error::Transport(TransportError::ConnectionLost))
        }
    } else if frame[0] == BLE_CMD_ERROR {
        if frame.len() >= 4 {
            Ok(BleNotification::ErrorFrame(frame[3]))
        } else {
            Err(Error::Transport(TransportError::ConnectionLost))
        }
    } else {
        Ok(BleNotification::Data)
    }
}

/// Classify one notification frame for the receive loop.
pub fn classify_notification(frame: &Vec<u8>) -> (r: Result<BleNotification, Error>)
    ensures
        r == spec_classify_notification(frame@),
{
    if frame.len() == 0 {
        return Err(Error::Transport(TransportError::ConnectionLost));
    }
    if frame[0] == BLE_CMD_KEEPALIVE {
        if frame.len() >= 4 {
            return Ok(BleNotification::KeepAlive(frame[3]));
        }
        return Err(Error::Transport(TransportError::ConnectionLost));
    }
    if frame[0] == BLE_CMD_ERROR {
        if frame.len() >= 4 {
            return Ok(BleNotification::ErrorFrame(frame[3]));
        }
        return Err(Error::Transport(TransportError::ConnectionLost));
    }
    Ok(BleNotification::Data)
}

/// The error a BLE ERROR-frame code surfaces as: the invalid-command,
/// -parameter and -length codes map to their CTAP errors, an invalid
/// sequence to a lost connection, a request timeout to `Timeout`, a busy
/// authenticator to `AlreadyInProgress`, and everything else to `Other`.
pub open spec fn spec_ble_error(code: u8) -> Error {
    if code == 0x01 {
        Error::Ctap(CtapError::InvalidCommand)
    } else if code == 0x02 {
        Error::Ctap(CtapError::InvalidParameter)
    } else if code == 0x03 {
        Error::Ctap(CtapError::InvalidLength)
    } else if code == 0x04 {
        Error::Transport(TransportError::ConnectionLost)
    } else if code == 0x05 {
        Error::Transport(TransportError::Timeout)
    } else if code == 0x06 {
        Error::Transport(TransportError::AlreadyInProgress)
    } else {
        Error::Ctap(CtapError::Other)
    }
}

/// Map a BLE ERROR-frame code to the error it surfaces as.
pub fn ble_error_to_error(code: u8) -> (r: Error)
    ensures
        r == spec_ble_error(code),
{
    if code == 0x01 {
        Error::Ctap(CtapError::InvalidCommand)
    } else if code == 0x02 {
        Error::Ctap(CtapError::InvalidParameter)
    } else if code == 0x03 {
        Error::Ctap(CtapError::InvalidLength)
    } else if code == 0x04 {
        Error::Transport(TransportError::ConnectionLost)
    } else if code == 0x05 {
        Error::Transport(TransportError::Timeout)
    } else if code == 0x06 {
        Error::Transport(TransportError::AlreadyInProgress)
    } else {
        Error::Ctap(CtapError::Other)
    }
}

/// The CANCEL frame: one initialization frame with command CANCEL and an
/// empty payload.
pub fn cancel_frame() -> (r: Vec<u8>)
    ensures
        r@ =~= seq![BLE_CMD_CANCEL, 0u8, 0u8],
{
    let mut v: Vec<u8> = Vec::new();
    v.push(BLE_CMD_CANCEL);
    v.push(0u8);
    v.push(0u8);
    v
}

/// When the operation deadline expires while a BLE exchange is under way,
/// the library sends a CANCEL frame, reports `Timeout`, and the channel
/// returns to `Ready`.
pub fn ble_deadline_expired() -> (r: (Vec<u8>, ChannelStatus, Error))
    ensures
        r.0@ =~= seq![BLE_CMD_CANCEL, 0u8, 0u8],
        r.1 == ChannelStatus::Ready,
        r.2 == Error::Transport(TransportError::Timeout),
{
    (cancel_frame(), ChannelStatus::Ready, Error::Transport(TransportError::Timeout))
}

/// The channel-state transition on starting a send: only a `Ready`
/// channel may send, and it becomes `Busy`.
pub fn status_on_send(status: ChannelStatus) -> (r: Result<ChannelStatus, Error>)
    ensures
        status == ChannelStatus::Ready ==> r == Ok::<ChannelStatus, Error>(ChannelStatus::Busy),
        status == ChannelStatus::Busy ==> r == Err::<ChannelStatus, Error>(
            Error::Transport(TransportError::AlreadyInProgress),
        ),
        status == ChannelStatus::Closed ==> r == Err::<ChannelStatus, Error>(
            Error::Transport(TransportError::ConnectionLost),
        ),
{
    match status {
        ChannelStatus::Ready => Ok(ChannelStatus::Busy),
        ChannelStatus::Busy => Err(Error::Transport(TransportError::AlreadyInProgress)),
        ChannelStatus::Closed => Err(Error::Transport(TransportError::ConnectionLost)),
    }
}

/// The channel-state transition on a completed receive or a recoverable
/// error: a `Busy` channel becomes `Ready` again; a closed one stays
/// closed.
pub fn status_on_recv_complete(status: ChannelStatus) -> (r: ChannelStatus)
    ensures
        status == ChannelStatus::Closed ==> r == ChannelStatus::Closed,
        status != ChannelStatus::Closed ==> r == ChannelStatus::Ready,
{
    match status {
        ChannelStatus::Closed => ChannelStatus::Closed,
        _ => ChannelStatus::Ready,
    }
}

/// Read the `fidoControlPointLength` characteristic: a 16-bit big-endian
/// maximum MTU. Anything but exactly two bytes is an invalid endpoint.
pub fn parse_control_point_length(raw: &Vec<u8>) -> (r: Result<u16, Error>)
    ensures
        raw@.len() == 2 ==> r == Ok::<u16, Error>((spec_u16_be(raw@[0], raw@[1])) as u16),
        raw@.len() != 2 ==> r == Err::<u16, Error>(
            Error::Transport(TransportError::InvalidEndpoint),
        ),
{
    if raw.len() != 2 {
        return Err(Error::Transport(TransportError::InvalidEndpoint));
    }
    Ok(crate::bytes::u16_from_be(raw[0], raw[1]))
}

/// What one pushed notification did to a receiver.
#[derive(Clone, Debug, PartialEq, Eq)]
pub enum BleRecvStatus {
    /// The frame was consumed; the message is not complete yet.
    NeedMore,
    /// A KEEPALIVE with its status byte: reset the inactivity timer and
    /// keep waiting.
    KeepAlive(u8),
    /// The message is complete: its command byte and payload.
    Done(u8, Vec<u8>),
}

/// The smaller of two lengths.
pub open spec fn spec_min(a: int, b: int) -> int {
    if a <= b {
        a
    } else {
        b
    }
}

/// An incremental reassembler for the notification stream of one
/// exchange: it consumes frames as the transport delivers them, skips
/// keep-alives, surfaces ERROR frames, checks the continuation sequence,
/// and tolerates a padded final fragment by holding to the declared
/// total.
pub struct BleReassembler {
    pub started: bool,
    pub cmd: u8,
    pub total: usize,
    pub body: Vec<u8>,
    pub next_seq: u8,
}

impl BleReassembler {
    /// The receiver's invariant: the body never outgrows the declared
    /// total, which fits the 16-bit length field.
    pub open spec fn wf(&self) -> bool {
        self.body@.len() <= self.total && self.total <= 0xFFFF && self.next_seq <= 0x80
    }

    /// A fresh receiver, awaiting an initialization frame.
    pub fn new() -> (r: BleReassembler)
        ensures
            r.wf(),
            !r.started,
            r.body@.len() == 0,
    {
        BleReassembler { started: false, cmd: 0, total: 0, body: Vec::new(), next_seq: 0 }
    }

    /// Consume one notification frame. A KEEPALIVE leaves the receiver
    /// unchanged; an ERROR frame surfaces its mapped error; the
    /// initialization frame opens the message and continuations extend it
    /// in sequence order, each truncated to the declared total; the
    /// message completes exactly when the body reaches the total, and the
    /// receiver then awaits the next message.
    pub fn push_notification(&mut self, frame: &Vec<u8>) -> (r: Result<BleRecvStatus, Error>)
        requires
            old(self).wf(),
        ensures
            final(self).wf(),
            r is Err ==> *final(self) == *old(self),
            r == Ok::<BleRecvStatus, Error>(BleRecvStatus::NeedMore) ==> final(self).started,
            (match r {
                Ok(BleRecvStatus::KeepAlive(st)) => *final(self) == *old(self)
                    && spec_classify_notification(frame@) == Ok::<BleNotification, Error>(
                    BleNotification::KeepAlive(st),
                ),
                _ => true,
            }),
            (match r {
                Ok(BleRecvStatus::Done(cmd, body)) => !final(self).started && (if !old(
                    self,
                ).started {
                    cmd == frame@[0] && body@ == frame@.skip(3).take(
                        spec_u16_be(frame@[1], frame@[2]),
                    )
                } else {
                    cmd == old(self).cmd && body@ == old(self).body@ + frame@.skip(1).take(
                        spec_min(frame@.len() - 1, old(self).total - old(self).body@.len()),
                    )
                }),
                _ => true,
            }),
    {
        match classify_notification(frame) {
            Err(e) => Err(e),
            Ok(BleNotification::KeepAlive(st)) => Ok(BleRecvStatus::KeepAlive(st)),
            Ok(BleNotification::ErrorFrame(code)) => Err(ble_error_to_error(code)),
            Ok(BleNotification::Data) => {
                if !self.started {
                    if frame.len() < 3 || frame[0] < 0x80 {
                        return Err(Error::Transport(TransportError::ConnectionLost));
                    }
                    let total: usize = crate::bytes::u16_from_be(frame[1], frame[2]) as usize;
                    let cmd = frame[0];
                    let mut body: Vec<u8> = Vec::new();
                    let mut j: usize = 3;
                    while j < frame.len() && body.len() < total
                        invariant
                            3 <= j <= frame@.len(),
                            body@.len() <= total,
                            body@ =~= frame@.subrange(3, j as int),
                        decreases frame@.len() - j,
                    {
                        body.push(frame[j]);
                        j = j + 1;
                    }
                    proof {
                        assert(body@ =~= frame@.skip(3).take(
                            spec_min(frame@.len() - 3, total as int),
                        ));
                    }
                    if body.len() == total {
                        proof {
                            assert(frame@.skip(3).take(spec_min(frame@.len() - 3, total as int))
                                =~= frame@.skip(3).take(total as int));
                        }
                        return Ok(BleRecvStatus::Done(cmd, body));
                    }
                    assert(body@.len() < total);
                    self.started = true;
                    self.cmd = cmd;
                    self.total = total;
                    self.body = body;
                    self.next_seq = 0;
                    Ok(BleRecvStatus::NeedMore)
                } else {
                    if frame.len() < 1 || self.next_seq >= 0x80 || frame[0] != self.next_seq {
                        return Err(Error::Transport(TransportError::ConnectionLost));
                    }
                    let ghost old_body = self.body@;
                    let total = self.total;
                    let mut j: usize = 1;
                    while j < frame.len() && self.body.len() < total
                        invariant
                            1 <= j <= frame@.len(),
                            self.started == old(self).started,
                            self.cmd == old(self).cmd,
                            self.total == old(self).total,
                            self.next_seq == old(self).next_seq,
                            total == old(self).total,
                            old(self).wf(),
                            old(self).next_seq < 0x80,
                            old_body == old(self).body@,
                            self.body@.len() <= total,
                            self.body@ =~= old_body + frame@.subrange(1, j as int),
                        decreases frame@.len() - j,
                    {
                        let b = frame[j];
                        self.body.push(b);
                        j = j + 1;
                    }
                    proof {
                        assert(self.body@ =~= old_body + frame@.skip(1).take(
                            spec_min(frame@.len() - 1, total - old_body.len()),
                        ));
                    }
                    if self.body.len() == total {
                        let cmd = self.cmd;
                        let mut body: Vec<u8> = Vec::new();
                        core::mem::swap(&mut body, &mut self.body);
                        self.started = false;
                        self.total = 0;
                        self.next_seq = 0;
                        return Ok(BleRecvStatus::Done(cmd, body));
                    }
                    self.next_seq = self.next_seq + 1;
                    Ok(BleRecvStatus::NeedMore)
                }
            },
        }
    }
}

} // verus!
