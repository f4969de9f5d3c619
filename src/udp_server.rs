//! UDP: the server's answer to each datagram, with no record of any peer.
use vstd::prelude::*;
use vstd::utf8::{decode_utf8, valid_utf8};
use vstd::slice::{slice_subrange, slice_to_vec};

use crate::text::utf8_text;
use crate::{Failure, BUFFER_LEN};

verus! {

/// A datagram to send: where to, and what.
pub struct Reply<A> {
    pub to: A,
    pub bytes: Vec<u8>,
}

/// One received datagram: the whole receive buffer, how many bytes of it the
/// datagram filled, and the address it came from.
pub struct Datagram<A> {
    pub buffer: Seq<u8>,
    pub size: nat,
    pub src: A,
}

/// The server's answer to one datagram, as the address it goes to and its
/// bytes; none when the payload is not text, which ends the server. The
/// answer is the whole receive buffer, not only the bytes received.
pub open spec fn datagram_reply<A>(d: Datagram<A>) -> Option<(A, Seq<u8>)> {
    if d.size <= d.buffer.len() && valid_utf8(d.buffer.subrange(0, d.size as int)) {
        Some((d.src, d.buffer))
    } else {
        None
    }
}

/// The server run over a series of datagrams: the answers it sends, in
/// order, up to the first datagram it cannot show as text.
pub open spec fn udp_serve_run<A>(ds: Seq<Datagram<A>>) -> Seq<(A, Seq<u8>)>
    decreases ds.len(),
{
    if ds.len() == 0 {
        Seq::empty()
    } else {
        match datagram_reply(ds[0]) {
            Some(r) => seq![r] + udp_serve_run(ds.drop_first()),
            None => Seq::empty(),
        }
    }
}

/// The server's answer to a datagram of `size` bytes from `src`, received
/// into `buffer`, where `text` is what decoding those bytes as UTF-8 gave:
/// the text to show and the whole buffer sent back to `src`, or a decode
/// failure.
pub fn on_datagram_decoded<A>(buffer: &[u8], size: usize, src: A, text: Option<String>) -> (r:
    Result<(String, Reply<A>), Failure>)
    requires
        size <= buffer@.len(),
    ensures
        text is None ==> r == Err::<(String, Reply<A>), Failure>(Failure::Decode),
        text matches Some(t) ==> r matches Ok((shown, reply)) && shown == t && reply.to == src
            && reply.bytes@ == buffer@,
{
    match text {
        Some(t) => {
            let bytes = slice_to_vec(buffer);
            Ok((t, Reply { to: src, bytes }))
        },
        None => Err(Failure::Decode),
    }
}

/// The server's answer to a datagram of `size` bytes from `src`, received
/// into `buffer`.
pub fn on_datagram<A>(buffer: &[u8], size: usize, src: A) -> (r: Result<(String, Reply<A>), Failure>)
    requires
        size <= buffer@.len(),
    ensures
        r is Ok <==> datagram_reply(Datagram { buffer: buffer@, size: size as nat, src }) is Some,
        r matches Ok((shown, reply)) ==> shown@ == decode_utf8(buffer@.subrange(0, size as int))
            && datagram_reply(Datagram { buffer: buffer@, size: size as nat, src }) == Some(
            (reply.to, reply.bytes@),
        ),
        r matches Err(e) ==> e == Failure::Decode,
{
    let text = utf8_text(slice_subrange(buffer, 0, size));
    on_datagram_decoded(buffer, size, src, text)
}

/// A text datagram of up to `BUFFER_LEN` bytes, received into a buffer of
/// `BUFFER_LEN` bytes, is answered to its sender with `BUFFER_LEN` bytes that
/// begin with the payload.
pub proof fn law_reply_covers_payload<A>(buffer: Seq<u8>, payload: Seq<u8>, src: A)
    requires
        buffer.len() == BUFFER_LEN,
        payload.len() <= BUFFER_LEN,
        buffer.subrange(0, payload.len() as int) == payload,
        valid_utf8(payload),
    ensures
        datagram_reply(Datagram { buffer, size: payload.len(), src }) matches Some((to, bytes))
            && to == src && bytes.len() == BUFFER_LEN && bytes.subrange(0, payload.len() as int)
            == payload,
{
}

/// The server keeps nothing between datagrams: however the senders
/// interleave, the i-th answer is that of the i-th datagram alone, sent to
/// that datagram's source; and every datagram that is text is answered.
pub proof fn law_stateless<A>(ds: Seq<Datagram<A>>)
    ensures
        udp_serve_run(ds).len() <= ds.len(),
        forall|i: int|
            0 <= i < udp_serve_run(ds).len() ==> datagram_reply(ds[i]) == Some(
                #[trigger] udp_serve_run(ds)[i],
            ) && udp_serve_run(ds)[i].0 == ds[i].src,
        (forall|i: int| 0 <= i < ds.len() ==> (#[trigger] datagram_reply(ds[i])) is Some) ==> udp_serve_run(ds).len()
            == ds.len(),
    decreases ds.len(),
{
    if ds.len() > 0 {
        let rest = ds.drop_first();
        law_stateless(rest);
        if datagram_reply(ds[0]) is Some {
            let out = udp_serve_run(ds);
            assert forall|i: int| 0 <= i < out.len() implies datagram_reply(ds[i]) == Some(
                #[trigger] out[i],
            ) && out[i].0 == ds[i].src by {
                if i > 0 {
                    assert(out[i] == udp_serve_run(rest)[i - 1]);
                    assert(ds[i] == rest[i - 1]);
                }
            }
            if forall|i: int| 0 <= i < ds.len() ==> (#[trigger] datagram_reply(ds[i])) is Some {
                assert forall|i: int| 0 <= i < rest.len() implies (#[trigger] datagram_reply(
                    rest[i],
                )) is Some by {
                    assert(rest[i] == ds[i + 1]);
                }
            }
        }
    }
}

} // verus!
