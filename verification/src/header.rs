//! The three fixed-layout headers that the analyzer puts in front of every
//! captured event.

use vstd::prelude::*;
use vstd::arithmetic::power2::lemma2_to64;
use crate::bits::{
    bit_at, field, lemma_bits_determine_bytes, lemma_field_bound, lemma_field_digits,
    lemma_field_from_digits, lemma_with_bit, lemma_with_field, read_bit, read_field, with_bit,
    with_field, write_bit, write_field,
};

verus! {

/// Length of a [`CommonHeader`] on the wire.
pub const COMMON_HEADER_LEN: usize = 3;

/// Length of a [`StatusHeader`] on the wire.
pub const STATUS_HEADER_LEN: usize = 1;

/// Length of a [`DataHeader`] on the wire.
pub const DATA_HEADER_LEN: usize = 4;

/// `n` zero bytes.
pub open spec fn zeros(n: nat) -> Seq<u8> {
    Seq::new(n, |i: int| 0u8)
}

/// Header in front of every captured event.
#[derive(Clone, Copy, Debug, PartialEq, Eq)]
pub struct CommonHeader {
    /// Bit 0: a [`DataHeader`] follows, not a [`StatusHeader`].
    pub is_data: bool,
    /// Bit 1: alternates from one event to the next.
    pub toggle: bool,
    /// Bit 2: never set in a sound stream.
    pub non_zero: bool,
    /// Bit 3: the timestamp counter wrapped since the last event.
    pub timestamp_overflow: bool,
    /// Bits 4 to 23.
    pub timestamp: u32,
}

/// Header of an event that reports the state of the bus.
#[derive(Clone, Copy, Debug, PartialEq, Eq)]
pub struct StatusHeader {
    /// Bits 0 to 1.
    pub speed: u8,
    /// Bit 2.
    pub trigger: bool,
    /// Bit 3.
    pub vbus: bool,
    /// Bits 4 to 7: line state.
    pub ls: u8,
}

/// Header of an event that carries a captured packet.
#[derive(Clone, Copy, Debug, PartialEq, Eq)]
pub struct DataHeader {
    /// Bits 0 to 1.
    pub reserved: u8,
    /// Bit 2.
    pub data_error: bool,
    /// Bit 3.
    pub crc_error: bool,
    /// Bit 4.
    pub overflow: bool,
    /// Bits 5 to 15: length of the whole event in bytes, both headers
    /// counted.
    pub size: u16,
    /// Bits 16 to 31.
    pub duration: u16,
}

impl CommonHeader {
    /// Every field fits its width on the wire.
    pub open spec fn wf(self) -> bool {
        self.timestamp < 0x10_0000
    }

    /// The header that three bytes spell.
    pub open spec fn decoded(bytes: Seq<u8>) -> CommonHeader {
        CommonHeader {
            is_data: bit_at(bytes, 0),
            toggle: bit_at(bytes, 1),
            non_zero: bit_at(bytes, 2),
            timestamp_overflow: bit_at(bytes, 3),
            timestamp: field(bytes, 4, 23) as u32,
        }
    }

    /// The three bytes that spell the header. A field wider than its place
    /// on the wire loses its high digits.
    pub open spec fn encoded(self) -> Seq<u8> {
        with_field(
            with_bit(
                with_bit(
                    with_bit(with_bit(zeros(3), 0, self.is_data), 1, self.toggle),
                    2,
                    self.non_zero,
                ),
                3,
                self.timestamp_overflow,
            ),
            4,
            23,
            self.timestamp as nat,
        )
    }

    /// Decodes the header.
    pub fn decode(bytes: &[u8; COMMON_HEADER_LEN]) -> (header: Self)
        ensures
            header == Self::decoded(bytes@),
            header.wf(),
    {
        let raw = bytes.as_slice();
        proof {
            lemma_field_bound(raw@, 4, 23);
            lemma2_to64();
        }
        CommonHeader {
            is_data: read_bit(raw, 0),
            toggle: read_bit(raw, 1),
            non_zero: read_bit(raw, 2),
            timestamp_overflow: read_bit(raw, 3),
            timestamp: read_field(raw, 4, 23),
        }
    }

    /// Encodes the header.
    pub fn encode(&self) -> (bytes: [u8; COMMON_HEADER_LEN])
        ensures
            bytes@ == self.encoded(),
    {
        let mut bytes = [0u8;COMMON_HEADER_LEN];
        assert(bytes@ =~= zeros(3));
        write_bit(&mut bytes, 0, self.is_data);
        write_bit(&mut bytes, 1, self.toggle);
        write_bit(&mut bytes, 2, self.non_zero);
        write_bit(&mut bytes, 3, self.timestamp_overflow);
        write_field(&mut bytes, 4, 23, self.timestamp);
        bytes
    }
}

impl StatusHeader {
    /// Every field fits its width on the wire.
    pub open spec fn wf(self) -> bool {
        self.speed < 4 && self.ls < 16
    }

    /// The header that one byte spells.
    pub open spec fn decoded(bytes: Seq<u8>) -> StatusHeader {
        StatusHeader {
            speed: field(bytes, 0, 1) as u8,
            trigger: bit_at(bytes, 2),
            vbus: bit_at(bytes, 3),
            ls: field(bytes, 4, 7) as u8,
        }
    }

    /// The byte that spells the header. A field wider than its place on the
    /// wire loses its high digits.
    pub open spec fn encoded(self) -> Seq<u8> {
        with_field(
            with_bit(
                with_bit(with_field(zeros(1), 0, 1, self.speed as nat), 2, self.trigger),
                3,
                self.vbus,
            ),
            4,
            7,
            self.ls as nat,
        )
    }

    /// Decodes the header.
    pub fn decode(bytes: &[u8; STATUS_HEADER_LEN]) -> (header: Self)
        ensures
            header == Self::decoded(bytes@),
            header.wf(),
    {
        let raw = bytes.as_slice();
        proof {
            lemma_field_bound(raw@, 0, 1);
            lemma_field_bound(raw@, 4, 7);
            lemma2_to64();
        }
        StatusHeader {
            speed: read_field(raw, 0, 1) as u8,
            trigger: read_bit(raw, 2),
            vbus: read_bit(raw, 3),
            ls: read_field(raw, 4, 7) as u8,
        }
    }

    /// Encodes the header.
    pub fn encode(&self) -> (bytes: [u8; STATUS_HEADER_LEN])
        ensures
            bytes@ == self.encoded(),
    {
        let mut bytes = [0u8;STATUS_HEADER_LEN];
        assert(bytes@ =~= zeros(1));
        write_field(&mut bytes, 0, 1, self.speed as u32);
        write_bit(&mut bytes, 2, self.trigger);
        write_bit(&mut bytes, 3, self.vbus);
        write_field(&mut bytes, 4, 7, self.ls as u32);
        bytes
    }
}

impl DataHeader {
    /// Every field fits its width on the wire.
    pub open spec fn wf(self) -> bool {
        self.reserved < 4 && self.size < 0x800
    }

    /// The header that four bytes spell.
    pub open spec fn decoded(bytes: Seq<u8>) -> DataHeader {
        DataHeader {
            reserved: field(bytes, 0, 1) as u8,
            data_error: bit_at(bytes, 2),
            crc_error: bit_at(bytes, 3),
            overflow: bit_at(bytes, 4),
            size: field(bytes, 5, 15) as u16,
            duration: field(bytes, 16, 31) as u16,
        }
    }

    /// The four bytes that spell the header. A field wider than its place on
    /// the wire loses its high digits.
    pub open spec fn encoded(self) -> Seq<u8> {
        with_field(
            with_field(
                with_bit(
                    with_bit(
                        with_bit(
                            with_field(zeros(4), 0, 1, self.reserved as nat),
                            2,
                            self.data_error,
                        ),
                        3,
                        self.crc_error,
                    ),
                    4,
                    self.overflow,
                ),
                5,
                15,
                self.size as nat,
            ),
            16,
            31,
            self.duration as nat,
        )
    }

    /// Decodes the header.
    pub fn decode(bytes: &[u8; DATA_HEADER_LEN]) -> (header: Self)
        ensures
            header == Self::decoded(bytes@),
            header.wf(),
    {
        let raw = bytes.as_slice();
        proof {
            lemma_field_bound(raw@, 0, 1);
            lemma_field_bound(raw@, 5, 15);
            lemma_field_bound(raw@, 16, 31);
            lemma2_to64();
        }
        DataHeader {
            reserved: read_field(raw, 0, 1) as u8,
            data_error: read_bit(raw, 2),
            crc_error: read_bit(raw, 3),
            overflow: read_bit(raw, 4),
            size: read_field(raw, 5, 15) as u16,
            duration: read_field(raw, 16, 31) as u16,
        }
    }

    /// Encodes the header.
    pub fn encode(&self) -> (bytes: [u8; DATA_HEADER_LEN])
        ensures
            bytes@ == self.encoded(),
    {
        let mut bytes = [0u8;DATA_HEADER_LEN];
        assert(bytes@ =~= zeros(4));
        write_field(&mut bytes, 0, 1, self.reserved as u32);
        write_bit(&mut bytes, 2, self.data_error);
        write_bit(&mut bytes, 3, self.crc_error);
        write_bit(&mut bytes, 4, self.overflow);
        write_field(&mut bytes, 5, 15, self.size as u32);
        write_field(&mut bytes, 16, 31, self.duration as u32);
        bytes
    }
}

/// Encoding a common header whose fields fit and decoding the bytes gives
/// the header back.
pub proof fn lemma_common_decode_encode(header: CommonHeader)
    requires
        header.wf(),
    ensures
        header.encoded().len() == COMMON_HEADER_LEN,
        CommonHeader::decoded(header.encoded()) == header,
{
    let e1 = with_bit(zeros(3), 0, header.is_data);
    let e2 = with_bit(e1, 1, header.toggle);
    let e3 = with_bit(e2, 2, header.non_zero);
    let e4 = with_bit(e3, 3, header.timestamp_overflow);
    let e5 = with_field(e4, 4, 23, header.timestamp as nat);
    lemma_with_bit(zeros(3), 0, header.is_data);
    lemma_with_bit(e1, 1, header.toggle);
    lemma_with_bit(e2, 2, header.non_zero);
    lemma_with_bit(e3, 3, header.timestamp_overflow);
    lemma_with_field(e4, 4, 23, header.timestamp as nat);
    lemma2_to64();
    lemma_field_from_digits(e5, 4, 23, header.timestamp as nat);
}

/// Decoding three bytes and encoding the header gives the bytes back.
pub proof fn lemma_common_encode_decode(bytes: Seq<u8>)
    requires
        bytes.len() == COMMON_HEADER_LEN,
    ensures
        CommonHeader::decoded(bytes).wf(),
        CommonHeader::decoded(bytes).encoded() == bytes,
{
    let header = CommonHeader::decoded(bytes);
    lemma_field_bound(bytes, 4, 23);
    lemma2_to64();
    let e1 = with_bit(zeros(3), 0, header.is_data);
    let e2 = with_bit(e1, 1, header.toggle);
    let e3 = with_bit(e2, 2, header.non_zero);
    let e4 = with_bit(e3, 3, header.timestamp_overflow);
    let e5 = with_field(e4, 4, 23, header.timestamp as nat);
    lemma_with_bit(zeros(3), 0, header.is_data);
    lemma_with_bit(e1, 1, header.toggle);
    lemma_with_bit(e2, 2, header.non_zero);
    lemma_with_bit(e3, 3, header.timestamp_overflow);
    lemma_with_field(e4, 4, 23, header.timestamp as nat);
    assert forall|j: int| 0 <= j < 24 implies bit_at(e5, j) == bit_at(bytes, j) by {
        if 4 <= j {
            lemma_field_digits(bytes, 4, 23, j);
        }
    }
    lemma_bits_determine_bytes(e5, bytes);
}

/// Encoding a status header whose fields fit and decoding the byte gives
/// the header back.
pub proof fn lemma_status_decode_encode(header: StatusHeader)
    requires
        header.wf(),
    ensures
        header.encoded().len() == STATUS_HEADER_LEN,
        StatusHeader::decoded(header.encoded()) == header,
{
    let e1 = with_field(zeros(1), 0, 1, header.speed as nat);
    let e2 = with_bit(e1, 2, header.trigger);
    let e3 = with_bit(e2, 3, header.vbus);
    let e4 = with_field(e3, 4, 7, header.ls as nat);
    lemma_with_field(zeros(1), 0, 1, header.speed as nat);
    lemma_with_bit(e1, 2, header.trigger);
    lemma_with_bit(e2, 3, header.vbus);
    lemma_with_field(e3, 4, 7, header.ls as nat);
    lemma2_to64();
    lemma_field_from_digits(e4, 0, 1, header.speed as nat);
    lemma_field_from_digits(e4, 4, 7, header.ls as nat);
}

/// Decoding one byte and encoding the header gives the byte back.
pub proof fn lemma_status_encode_decode(bytes: Seq<u8>)
    requires
        bytes.len() == STATUS_HEADER_LEN,
    ensures
        StatusHeader::decoded(bytes).wf(),
        StatusHeader::decoded(bytes).encoded() == bytes,
{
    let header = StatusHeader::decoded(bytes);
    lemma_field_bound(bytes, 0, 1);
    lemma_field_bound(bytes, 4, 7);
    lemma2_to64();
    let e1 = with_field(zeros(1), 0, 1, header.speed as nat);
    let e2 = with_bit(e1, 2, header.trigger);
    let e3 = with_bit(e2, 3, header.vbus);
    let e4 = with_field(e3, 4, 7, header.ls as nat);
    lemma_with_field(zeros(1), 0, 1, header.speed as nat);
    lemma_with_bit(e1, 2, header.trigger);
    lemma_with_bit(e2, 3, header.vbus);
    lemma_with_field(e3, 4, 7, header.ls as nat);
    assert forall|j: int| 0 <= j < 8 implies bit_at(e4, j) == bit_at(bytes, j) by {
        if j <= 1 {
            lemma_field_digits(bytes, 0, 1, j);
        }
        if 4 <= j {
            lemma_field_digits(bytes, 4, 7, j);
        }
    }
    lemma_bits_determine_bytes(e4, bytes);
}

/// Encoding a data header whose fields fit and decoding the bytes gives the
/// header back.
pub proof fn lemma_data_decode_encode(header: DataHeader)
    requires
        header.wf(),
    ensures
        header.encoded().len() == DATA_HEADER_LEN,
        DataHeader::decoded(header.encoded()) == header,
{
    let e1 = with_field(zeros(4), 0, 1, header.reserved as nat);
    let e2 = with_bit(e1, 2, header.data_error);
    let e3 = with_bit(e2, 3, header.crc_error);
    let e4 = with_bit(e3, 4, header.overflow);
    let e5 = with_field(e4, 5, 15, header.size as nat);
    let e6 = with_field(e5, 16, 31, header.duration as nat);
    lemma_with_field(zeros(4), 0, 1, header.reserved as nat);
    lemma_with_bit(e1, 2, header.data_error);
    lemma_with_bit(e2, 3, header.crc_error);
    lemma_with_bit(e3, 4, header.overflow);
    lemma_with_field(e4, 5, 15, header.size as nat);
    lemma_with_field(e5, 16, 31, header.duration as nat);
    lemma2_to64();
    lemma_field_from_digits(e6, 0, 1, header.reserved as nat);
    lemma_field_from_digits(e6, 5, 15, header.size as nat);
    lemma_field_from_digits(e6, 16, 31, header.duration as nat);
}

/// Decoding four bytes and encoding the header gives the bytes back.
pub proof fn lemma_data_encode_decode(bytes: Seq<u8>)
    requires
        bytes.len() == DATA_HEADER_LEN,
    ensures
        DataHeader::decoded(bytes).wf(),
        DataHeader::decoded(bytes).encoded() == bytes,
{
    let header = DataHeader::decoded(bytes);
    lemma_field_bound(bytes, 0, 1);
    lemma_field_bound(bytes, 5, 15);
    lemma_field_bound(bytes, 16, 31);
    lemma2_to64();
    let e1 = with_field(zeros(4), 0, 1, header.reserved as nat);
    let e2 = with_bit(e1, 2, header.data_error);
    let e3 = with_bit(e2, 3, header.crc_error);
    let e4 = with_bit(e3, 4, header.overflow);
    let e5 = with_field(e4, 5, 15, header.size as nat);
    let e6 = with_field(e5, 16, 31, header.duration as nat);
    lemma_with_field(zeros(4), 0, 1, header.reserved as nat);
    lemma_with_bit(e1, 2, header.data_error);
    lemma_with_bit(e2, 3, header.crc_error);
    lemma_with_bit(e3, 4, header.overflow);
    lemma_with_field(e4, 5, 15, header.size as nat);
    lemma_with_field(e5, 16, 31, header.duration as nat);
    assert forall|j: int| 0 <= j < 32 implies bit_at(e6, j) == bit_at(bytes, j) by {
        if j <= 1 {
            lemma_field_digits(bytes, 0, 1, j);
        }
        if 5 <= j <= 15 {
            lemma_field_digits(bytes, 5, 15, j);
        }
        if 16 <= j {
            lemma_field_digits(bytes, 16, 31, j);
        }
    }
    lemma_bits_determine_bytes(e6, bytes);
}

} // verus!
