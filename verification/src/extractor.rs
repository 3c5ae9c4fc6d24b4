//! Recognises the OUT token followed by a DATA packet in successive captured
//! payloads and trims the DATA packet down to its audio bytes.

use vstd::prelude::*;
use crate::frame::AudioFrame;

verus! {

/// Packet identifier byte of an OUT token.
pub const OUT_TOKEN: u8 = 0xe1;

/// Packet identifier byte of the DATA packet that follows an OUT token.
pub const DATA_PACKET: u8 = 0xc3;

/// Shortest payload that can be classified: one identifier byte and two
/// checksum bytes.
pub const MIN_PACKET_LEN: usize = 3;

/// Whether `payload` is long enough to be classified and starts with `pid`.
pub open spec fn starts_with_pid(payload: Seq<u8>, pid: u8) -> bool {
    payload.len() >= MIN_PACKET_LEN && payload[0] == pid
}

/// Whether `payload`, seen in the state `saw_out`, carries audio: it must be a
/// DATA packet directly after an OUT token.
pub open spec fn is_audio(saw_out: bool, payload: Seq<u8>) -> bool {
    saw_out && starts_with_pid(payload, DATA_PACKET)
}

/// State after `payload`: only an OUT token leaves the extractor waiting for
/// a DATA packet.
pub open spec fn next_state(payload: Seq<u8>) -> bool {
    starts_with_pid(payload, OUT_TOKEN)
}

/// The audio bytes of a DATA packet: everything between the identifier byte
/// and the two trailing checksum bytes.
pub open spec fn audio_bytes(payload: Seq<u8>) -> Seq<u8>
    recommends
        payload.len() >= MIN_PACKET_LEN,
{
    payload.subrange(1, payload.len() - 2)
}

/// Two-state machine over successive payloads. `out_frame_received` is true
/// exactly when the previous payload was an OUT token.
pub struct AudioReceiver {
    pub out_frame_received: bool,
}

impl AudioReceiver {
    /// A receiver that has not seen an OUT token.
    pub fn new() -> (receiver: Self)
        ensures
            !receiver.out_frame_received,
    {
        AudioReceiver { out_frame_received: false }
    }

    /// Classifies the payload held in `frame`. Returns true if it carries
    /// audio; the frame's window is then trimmed to the audio bytes. Otherwise
    /// the frame is left as it is.
    pub fn usb_frame_received(&mut self, frame: &mut AudioFrame) -> (audio: bool)
        ensures
            audio == is_audio(old(self).out_frame_received, old(frame)@),
            final(self).out_frame_received == next_state(old(frame)@),
            audio ==> final(frame)@ == audio_bytes(old(frame)@),
            !audio ==> final(frame)@ == old(frame)@,
    {
        let saw_out: bool = self.out_frame_received;
        let data = frame.slice();
        if data.len() < MIN_PACKET_LEN {
            self.out_frame_received = false;
            return false;
        }
        let pid: u8 = data[0];
        if pid == OUT_TOKEN {
            self.out_frame_received = true;
            return false;
        }
        self.out_frame_received = false;
        if saw_out && pid == DATA_PACKET {
            frame.remove_start(1);
            frame.remove_end(2);
            assert(frame@ =~= audio_bytes(old(frame)@));
            return true;
        }
        false
    }
}

} // verus!
