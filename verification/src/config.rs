//! Configuration of the audio source: sample format, channel layout and the
//! stride that follows from them.

use vstd::prelude::*;
use vstd::string::StringSliceAdditionalSpecFns;
use vstd::utf8::encode_utf8_decode_utf8;

verus! {

/// A configuration that cannot be used.
#[derive(Clone, Copy, Debug, PartialEq, Eq)]
pub enum ConfigError {
    /// The name is not that of a sample format.
    InvalidFormat,
    /// The name is not that of a channel position.
    InvalidChannel,
    /// More channels than the audio sink takes, or than a stride can count.
    TooManyChannels,
}

impl ConfigError {
    /// The error in words.
    pub open spec fn text(self) -> Seq<char> {
        match self {
            ConfigError::InvalidFormat => "invalid audio format"@,
            ConfigError::InvalidChannel => "invalid audio channel"@,
            ConfigError::TooManyChannels => "too many channels"@,
        }
    }

    /// The error in words.
    pub fn message(&self) -> (message: &'static str)
        ensures
            message@ == self.text(),
    {
        match self {
            ConfigError::InvalidFormat => "invalid audio format",
            ConfigError::InvalidChannel => "invalid audio channel",
            ConfigError::TooManyChannels => "too many channels",
        }
    }
}

/// Layout of one sample in memory.
#[allow(non_camel_case_types)]
#[derive(Clone, Copy, Debug, PartialEq, Eq)]
pub enum SampleFormat {
    /// 8-bit signed.
    S8,
    /// 8-bit unsigned.
    U8,
    /// 16-bit signed, little-endian.
    S16LE,
    /// 16-bit signed, big-endian.
    S16BE,
    /// 16-bit unsigned, little-endian.
    U16LE,
    /// 16-bit unsigned, big-endian.
    U16BE,
    /// 24-bit signed in a 32-bit container, little-endian.
    S24_32LE,
    /// 24-bit signed in a 32-bit container, big-endian.
    S24_32BE,
    /// 24-bit unsigned in a 32-bit container, little-endian.
    U24_32LE,
    /// 24-bit unsigned in a 32-bit container, big-endian.
    U24_32BE,
    /// 32-bit signed, little-endian.
    S32LE,
    /// 32-bit signed, big-endian.
    S32BE,
    /// 32-bit unsigned, little-endian.
    U32LE,
    /// 32-bit unsigned, big-endian.
    U32BE,
    /// 24-bit signed, little-endian.
    S24LE,
    /// 24-bit signed, big-endian.
    S24BE,
    /// 24-bit unsigned, little-endian.
    U24LE,
    /// 24-bit unsigned, big-endian.
    U24BE,
    /// 20-bit signed, little-endian.
    S20LE,
    /// 20-bit signed, big-endian.
    S20BE,
    /// 20-bit unsigned, little-endian.
    U20LE,
    /// 20-bit unsigned, big-endian.
    U20BE,
    /// 18-bit signed, little-endian.
    S18LE,
    /// 18-bit signed, big-endian.
    S18BE,
    /// 18-bit unsigned, little-endian.
    U18LE,
    /// 18-bit unsigned, big-endian.
    U18BE,
    /// 32-bit floating-point, little-endian.
    F32LE,
    /// 32-bit floating-point, big-endian.
    F32BE,
    /// 64-bit floating-point, little-endian.
    F64LE,
    /// 64-bit floating-point, big-endian.
    F64BE,
}

impl SampleFormat {
    /// The name by which the format is configured.
    pub open spec fn name(self) -> Seq<char> {
        match self {
            SampleFormat::S8 => "S8"@,
            SampleFormat::U8 => "U8"@,
            SampleFormat::S16LE => "S16LE"@,
            SampleFormat::S16BE => "S16BE"@,
            SampleFormat::U16LE => "U16LE"@,
            SampleFormat::U16BE => "U16BE"@,
            SampleFormat::S24_32LE => "S24_32LE"@,
            SampleFormat::S24_32BE => "S24_32BE"@,
            SampleFormat::U24_32LE => "U24_32LE"@,
            SampleFormat::U24_32BE => "U24_32BE"@,
            SampleFormat::S32LE => "S32LE"@,
            SampleFormat::S32BE => "S32BE"@,
            SampleFormat::U32LE => "U32LE"@,
            SampleFormat::U32BE => "U32BE"@,
            SampleFormat::S24LE => "S24LE"@,
            SampleFormat::S24BE => "S24BE"@,
            SampleFormat::U24LE => "U24LE"@,
            SampleFormat::U24BE => "U24BE"@,
            SampleFormat::S20LE => "S20LE"@,
            SampleFormat::S20BE => "S20BE"@,
            SampleFormat::U20LE => "U20LE"@,
            SampleFormat::U20BE => "U20BE"@,
            SampleFormat::S18LE => "S18LE"@,
            SampleFormat::S18BE => "S18BE"@,
            SampleFormat::U18LE => "U18LE"@,
            SampleFormat::U18BE => "U18BE"@,
            SampleFormat::F32LE => "F32LE"@,
            SampleFormat::F32BE => "F32BE"@,
            SampleFormat::F64LE => "F64LE"@,
            SampleFormat::F64BE => "F64BE"@,
        }
    }

    /// Bytes that one sample of one channel occupies.
    pub open spec fn sample_bytes(self) -> nat {
        match self {
            SampleFormat::S8
            | SampleFormat::U8 => 1,
            SampleFormat::S16LE
            | SampleFormat::S16BE
            | SampleFormat::U16LE
            | SampleFormat::U16BE => 2,
            SampleFormat::S24LE
            | SampleFormat::S24BE
            | SampleFormat::U24LE
            | SampleFormat::U24BE
            | SampleFormat::S20LE
            | SampleFormat::S20BE
            | SampleFormat::U20LE
            | SampleFormat::U20BE
            | SampleFormat::S18LE
            | SampleFormat::S18BE
            | SampleFormat::U18LE
            | SampleFormat::U18BE => 3,
            SampleFormat::S24_32LE
            | SampleFormat::S24_32BE
            | SampleFormat::U24_32LE
            | SampleFormat::U24_32BE
            | SampleFormat::S32LE
            | SampleFormat::S32BE
            | SampleFormat::U32LE
            | SampleFormat::U32BE
            | SampleFormat::F32LE
            | SampleFormat::F32BE => 4,
            SampleFormat::F64LE
            | SampleFormat::F64BE => 8,
        }
    }
}

/// Position of one channel in the layout.
#[derive(Clone, Copy, Debug, PartialEq, Eq)]
pub enum ChannelPosition {
    /// Front left.
    FL,
    /// Front right.
    FR,
    /// Front center.
    FC,
    /// Low-frequency effects.
    LFE,
    /// Side left.
    SL,
    /// Side right.
    SR,
    /// Front left of center.
    FLC,
    /// Front right of center.
    FRC,
    /// Rear center.
    RC,
    /// Rear left.
    RL,
    /// Rear right.
    RR,
    /// Top center.
    TC,
    /// Top front left.
    TFL,
    /// Top front center.
    TFC,
    /// Top front right.
    TFR,
    /// Top rear left.
    TRL,
    /// Top rear center.
    TRC,
    /// Top rear right.
    TRR,
    /// Rear left of center.
    RLC,
    /// Rear right of center.
    RRC,
    /// Front left wide.
    FLW,
    /// Front right wide.
    FRW,
    /// Second low-frequency effects.
    LFE2,
    /// Front left high.
    FLH,
    /// Front center high.
    FCH,
    /// Front right high.
    FRH,
    /// Top front left of center.
    TFLC,
    /// Top front right of center.
    TFRC,
    /// Top side left.
    TSL,
    /// Top side right.
    TSR,
    /// Left low-frequency effects.
    LLFE,
    /// Right low-frequency effects.
    RLFE,
    /// Bottom center.
    BC,
    /// Bottom left of center.
    BLC,
    /// Bottom right of center.
    BRC,
}

impl ChannelPosition {
    /// The name by which the position is configured.
    pub open spec fn name(self) -> Seq<char> {
        match self {
            ChannelPosition::FL => "FL"@,
            ChannelPosition::FR => "FR"@,
            ChannelPosition::FC => "FC"@,
            ChannelPosition::LFE => "LFE"@,
            ChannelPosition::SL => "SL"@,
            ChannelPosition::SR => "SR"@,
            ChannelPosition::FLC => "FLC"@,
            ChannelPosition::FRC => "FRC"@,
            ChannelPosition::RC => "RC"@,
            ChannelPosition::RL => "RL"@,
            ChannelPosition::RR => "RR"@,
            ChannelPosition::TC => "TC"@,
            ChannelPosition::TFL => "TFL"@,
            ChannelPosition::TFC => "TFC"@,
            ChannelPosition::TFR => "TFR"@,
            ChannelPosition::TRL => "TRL"@,
            ChannelPosition::TRC => "TRC"@,
            ChannelPosition::TRR => "TRR"@,
            ChannelPosition::RLC => "RLC"@,
            ChannelPosition::RRC => "RRC"@,
            ChannelPosition::FLW => "FLW"@,
            ChannelPosition::FRW => "FRW"@,
            ChannelPosition::LFE2 => "LFE2"@,
            ChannelPosition::FLH => "FLH"@,
            ChannelPosition::FCH => "FCH"@,
            ChannelPosition::FRH => "FRH"@,
            ChannelPosition::TFLC => "TFLC"@,
            ChannelPosition::TFRC => "TFRC"@,
            ChannelPosition::TSL => "TSL"@,
            ChannelPosition::TSR => "TSR"@,
            ChannelPosition::LLFE => "LLFE"@,
            ChannelPosition::RLFE => "RLFE"@,
            ChannelPosition::BC => "BC"@,
            ChannelPosition::BLC => "BLC"@,
            ChannelPosition::BRC => "BRC"@,
        }
    }
}

/// Whether two strings hold the same characters.
fn str_eq(a: &str, b: &str) -> (same: bool)
    ensures
        same == (a@ == b@),
{
    let x = a.as_bytes();
    let y = b.as_bytes();
    proof {
        encode_utf8_decode_utf8(a@);
        encode_utf8_decode_utf8(b@);
    }
    if x.len() != y.len() {
        return false;
    }
    let n: usize = x.len();
    let mut i: usize = 0;
    while i < n
        invariant
            i <= n,
            n == x@.len(),
            n == y@.len(),
            x@ == a.spec_bytes(),
            y@ == b.spec_bytes(),
            forall|k: int| 0 <= k < i ==> x@[k] == y@[k],
        decreases n - i,
    {
        if x[i] != y[i] {
            return false;
        }
        i = i + 1;
    }
    assert(x@ =~= y@);
    true
}

/// Reads the name of a sample format. Succeeds exactly on the names of
/// [`SampleFormat::name`].
pub fn parse_format(format: &str) -> (r: Result<SampleFormat, ConfigError>)
    ensures
        r matches Ok(f) ==> format@ == f.name(),
        r matches Err(e) ==> e == ConfigError::InvalidFormat && forall|f: SampleFormat|
            format@ != #[trigger] f.name(),
{
    if str_eq(format, "S8") {
        Ok(SampleFormat::S8)
    } else if str_eq(format, "U8") {
        Ok(SampleFormat::U8)
    } else if str_eq(format, "S16LE") {
        Ok(SampleFormat::S16LE)
    } else if str_eq(format, "S16BE") {
        Ok(SampleFormat::S16BE)
    } else if str_eq(format, "U16LE") {
        Ok(SampleFormat::U16LE)
    } else if str_eq(format, "U16BE") {
        Ok(SampleFormat::U16BE)
    } else if str_eq(format, "S24_32LE") {
        Ok(SampleFormat::S24_32LE)
    } else if str_eq(format, "S24_32BE") {
        Ok(SampleFormat::S24_32BE)
    } else if str_eq(format, "U24_32LE") {
        Ok(SampleFormat::U24_32LE)
    } else if str_eq(format, "U24_32BE") {
        Ok(SampleFormat::U24_32BE)
    } else if str_eq(format, "S32LE") {
        Ok(SampleFormat::S32LE)
    } else if str_eq(format, "S32BE") {
        Ok(SampleFormat::S32BE)
    } else if str_eq(format, "U32LE") {
        Ok(SampleFormat::U32LE)
    } else if str_eq(format, "U32BE") {
        Ok(SampleFormat::U32BE)
    } else if str_eq(format, "S24LE") {
        Ok(SampleFormat::S24LE)
    } else if str_eq(format, "S24BE") {
        Ok(SampleFormat::S24BE)
    } else if str_eq(format, "U24LE") {
        Ok(SampleFormat::U24LE)
    } else if str_eq(format, "U24BE") {
        Ok(SampleFormat::U24BE)
    } else if str_eq(format, "S20LE") {
        Ok(SampleFormat::S20LE)
    } else if str_eq(format, "S20BE") {
        Ok(SampleFormat::S20BE)
    } else if str_eq(format, "U20LE") {
        Ok(SampleFormat::U20LE)
    } else if str_eq(format, "U20BE") {
        Ok(SampleFormat::U20BE)
    } else if str_eq(format, "S18LE") {
        Ok(SampleFormat::S18LE)
    } else if str_eq(format, "S18BE") {
        Ok(SampleFormat::S18BE)
    } else if str_eq(format, "U18LE") {
        Ok(SampleFormat::U18LE)
    } else if str_eq(format, "U18BE") {
        Ok(SampleFormat::U18BE)
    } else if str_eq(format, "F32LE") {
        Ok(SampleFormat::F32LE)
    } else if str_eq(format, "F32BE") {
        Ok(SampleFormat::F32BE)
    } else if str_eq(format, "F64LE") {
        Ok(SampleFormat::F64LE)
    } else if str_eq(format, "F64BE") {
        Ok(SampleFormat::F64BE)
    } else {
        Err(ConfigError::InvalidFormat)
    }
}

/// Reads the name of a channel position. Succeeds exactly on the names of
/// [`ChannelPosition::name`].
pub fn parse_channel(channel: &str) -> (r: Result<ChannelPosition, ConfigError>)
    ensures
        r matches Ok(c) ==> channel@ == c.name(),
        r matches Err(e) ==> e == ConfigError::InvalidChannel && forall|c: ChannelPosition|
            channel@ != #[trigger] c.name(),
{
    if str_eq(channel, "FL") {
        Ok(ChannelPosition::FL)
    } else if str_eq(channel, "FR") {
        Ok(ChannelPosition::FR)
    } else if str_eq(channel, "FC") {
        Ok(ChannelPosition::FC)
    } else if str_eq(channel, "LFE") {
        Ok(ChannelPosition::LFE)
    } else if str_eq(channel, "SL") {
        Ok(ChannelPosition::SL)
    } else if str_eq(channel, "SR") {
        Ok(ChannelPosition::SR)
    } else if str_eq(channel, "FLC") {
        Ok(ChannelPosition::FLC)
    } else if str_eq(channel, "FRC") {
        Ok(ChannelPosition::FRC)
    } else if str_eq(channel, "RC") {
        Ok(ChannelPosition::RC)
    } else if str_eq(channel, "RL") {
        Ok(ChannelPosition::RL)
    } else if str_eq(channel, "RR") {
        Ok(ChannelPosition::RR)
    } else if str_eq(channel, "TC") {
        Ok(ChannelPosition::TC)
    } else if str_eq(channel, "TFL") {
        Ok(ChannelPosition::TFL)
    } else if str_eq(channel, "TFC") {
        Ok(ChannelPosition::TFC)
    } else if str_eq(channel, "TFR") {
        Ok(ChannelPosition::TFR)
    } else if str_eq(channel, "TRL") {
        Ok(ChannelPosition::TRL)
    } else if str_eq(channel, "TRC") {
        Ok(ChannelPosition::TRC)
    } else if str_eq(channel, "TRR") {
        Ok(ChannelPosition::TRR)
    } else if str_eq(channel, "RLC") {
        Ok(ChannelPosition::RLC)
    } else if str_eq(channel, "RRC") {
        Ok(ChannelPosition::RRC)
    } else if str_eq(channel, "FLW") {
        Ok(ChannelPosition::FLW)
    } else if str_eq(channel, "FRW") {
        Ok(ChannelPosition::FRW)
    } else if str_eq(channel, "LFE2") {
        Ok(ChannelPosition::LFE2)
    } else if str_eq(channel, "FLH") {
        Ok(ChannelPosition::FLH)
    } else if str_eq(channel, "FCH") {
        Ok(ChannelPosition::FCH)
    } else if str_eq(channel, "FRH") {
        Ok(ChannelPosition::FRH)
    } else if str_eq(channel, "TFLC") {
        Ok(ChannelPosition::TFLC)
    } else if str_eq(channel, "TFRC") {
        Ok(ChannelPosition::TFRC)
    } else if str_eq(channel, "TSL") {
        Ok(ChannelPosition::TSL)
    } else if str_eq(channel, "TSR") {
        Ok(ChannelPosition::TSR)
    } else if str_eq(channel, "LLFE") {
        Ok(ChannelPosition::LLFE)
    } else if str_eq(channel, "RLFE") {
        Ok(ChannelPosition::RLFE)
    } else if str_eq(channel, "BC") {
        Ok(ChannelPosition::BC)
    } else if str_eq(channel, "BLC") {
        Ok(ChannelPosition::BLC)
    } else if str_eq(channel, "BRC") {
        Ok(ChannelPosition::BRC)
    } else {
        Err(ConfigError::InvalidChannel)
    }
}

/// No two sample formats share a name, so [`parse_format`] has one answer.
pub proof fn lemma_format_names_distinct(a: SampleFormat, b: SampleFormat)
    requires
        a.name() == b.name(),
    ensures
        a == b,
{
    assert("S8"@ =~= seq!['S', '8']) by {
        reveal_strlit("S8");
    }
    assert("U8"@ =~= seq!['U', '8']) by {
        reveal_strlit("U8");
    }
    assert("S16LE"@ =~= seq!['S', '1', '6', 'L', 'E']) by {
        reveal_strlit("S16LE");
    }
    assert("S16BE"@ =~= seq!['S', '1', '6', 'B', 'E']) by {
        reveal_strlit("S16BE");
    }
    assert("U16LE"@ =~= seq!['U', '1', '6', 'L', 'E']) by {
        reveal_strlit("U16LE");
    }
    assert("U16BE"@ =~= seq!['U', '1', '6', 'B', 'E']) by {
        reveal_strlit("U16BE");
    }
    assert("S24_32LE"@ =~= seq!['S', '2', '4', '_', '3', '2', 'L', 'E']) by {
        reveal_strlit("S24_32LE");
    }
    assert("S24_32BE"@ =~= seq!['S', '2', '4', '_', '3', '2', 'B', 'E']) by {
        reveal_strlit("S24_32BE");
    }
    assert("U24_32LE"@ =~= seq!['U', '2', '4', '_', '3', '2', 'L', 'E']) by {
        reveal_strlit("U24_32LE");
    }
    assert("U24_32BE"@ =~= seq!['U', '2', '4', '_', '3', '2', 'B', 'E']) by {
        reveal_strlit("U24_32BE");
    }
    assert("S32LE"@ =~= seq!['S', '3', '2', 'L', 'E']) by {
        reveal_strlit("S32LE");
    }
    assert("S32BE"@ =~= seq!['S', '3', '2', 'B', 'E']) by {
        reveal_strlit("S32BE");
    }
    assert("U32LE"@ =~= seq!['U', '3', '2', 'L', 'E']) by {
        reveal_strlit("U32LE");
    }
    assert("U32BE"@ =~= seq!['U', '3', '2', 'B', 'E']) by {
        reveal_strlit("U32BE");
    }
    assert("S24LE"@ =~= seq!['S', '2', '4', 'L', 'E']) by {
        reveal_strlit("S24LE");
    }
    assert("S24BE"@ =~= seq!['S', '2', '4', 'B', 'E']) by {
        reveal_strlit("S24BE");
    }
    assert("U24LE"@ =~= seq!['U', '2', '4', 'L', 'E']) by {
        reveal_strlit("U24LE");
    }
    assert("U24BE"@ =~= seq!['U', '2', '4', 'B', 'E']) by {
        reveal_strlit("U24BE");
    }
    assert("S20LE"@ =~= seq!['S', '2', '0', 'L', 'E']) by {
        reveal_strlit("S20LE");
    }
    assert("S20BE"@ =~= seq!['S', '2', '0', 'B', 'E']) by {
        reveal_strlit("S20BE");
    }
    assert("U20LE"@ =~= seq!['U', '2', '0', 'L', 'E']) by {
        reveal_strlit("U20LE");
    }
    assert("U20BE"@ =~= seq!['U', '2', '0', 'B', 'E']) by {
        reveal_strlit("U20BE");
    }
    assert("S18LE"@ =~= seq!['S', '1', '8', 'L', 'E']) by {
        reveal_strlit("S18LE");
    }
    assert("S18BE"@ =~= seq!['S', '1', '8', 'B', 'E']) by {
        reveal_strlit("S18BE");
    }
    assert("U18LE"@ =~= seq!['U', '1', '8', 'L', 'E']) by {
        reveal_strlit("U18LE");
    }
    assert("U18BE"@ =~= seq!['U', '1', '8', 'B', 'E']) by {
        reveal_strlit("U18BE");
    }
    assert("F32LE"@ =~= seq!['F', '3', '2', 'L', 'E']) by {
        reveal_strlit("F32LE");
    }
    assert("F32BE"@ =~= seq!['F', '3', '2', 'B', 'E']) by {
        reveal_strlit("F32BE");
    }
    assert("F64LE"@ =~= seq!['F', '6', '4', 'L', 'E']) by {
        reveal_strlit("F64LE");
    }
    assert("F64BE"@ =~= seq!['F', '6', '4', 'B', 'E']) by {
        reveal_strlit("F64BE");
    }
}

/// No two channel positions share a name, so [`parse_channel`] has one
/// answer.
pub proof fn lemma_channel_names_distinct(a: ChannelPosition, b: ChannelPosition)
    requires
        a.name() == b.name(),
    ensures
        a == b,
{
    assert("FL"@ =~= seq!['F', 'L']) by {
        reveal_strlit("FL");
    }
    assert("FR"@ =~= seq!['F', 'R']) by {
        reveal_strlit("FR");
    }
    assert("FC"@ =~= seq!['F', 'C']) by {
        reveal_strlit("FC");
    }
    assert("LFE"@ =~= seq!['L', 'F', 'E']) by {
        reveal_strlit("LFE");
    }
    assert("SL"@ =~= seq!['S', 'L']) by {
        reveal_strlit("SL");
    }
    assert("SR"@ =~= seq!['S', 'R']) by {
        reveal_strlit("SR");
    }
    assert("FLC"@ =~= seq!['F', 'L', 'C']) by {
        reveal_strlit("FLC");
    }
    assert("FRC"@ =~= seq!['F', 'R', 'C']) by {
        reveal_strlit("FRC");
    }
    assert("RC"@ =~= seq!['R', 'C']) by {
        reveal_strlit("RC");
    }
    assert("RL"@ =~= seq!['R', 'L']) by {
        reveal_strlit("RL");
    }
    assert("RR"@ =~= seq!['R', 'R']) by {
        reveal_strlit("RR");
    }
    assert("TC"@ =~= seq!['T', 'C']) by {
        reveal_strlit("TC");
    }
    assert("TFL"@ =~= seq!['T', 'F', 'L']) by {
        reveal_strlit("TFL");
    }
    assert("TFC"@ =~= seq!['T', 'F', 'C']) by {
        reveal_strlit("TFC");
    }
    assert("TFR"@ =~= seq!['T', 'F', 'R']) by {
        reveal_strlit("TFR");
    }
    assert("TRL"@ =~= seq!['T', 'R', 'L']) by {
        reveal_strlit("TRL");
    }
    assert("TRC"@ =~= seq!['T', 'R', 'C']) by {
        reveal_strlit("TRC");
    }
    assert("TRR"@ =~= seq!['T', 'R', 'R']) by {
        reveal_strlit("TRR");
    }
    assert("RLC"@ =~= seq!['R', 'L', 'C']) by {
        reveal_strlit("RLC");
    }
    assert("RRC"@ =~= seq!['R', 'R', 'C']) by {
        reveal_strlit("RRC");
    }
    assert("FLW"@ =~= seq!['F', 'L', 'W']) by {
        reveal_strlit("FLW");
    }
    assert("FRW"@ =~= seq!['F', 'R', 'W']) by {
        reveal_strlit("FRW");
    }
    assert("LFE2"@ =~= seq!['L', 'F', 'E', '2']) by {
        reveal_strlit("LFE2");
    }
    assert("FLH"@ =~= seq!['F', 'L', 'H']) by {
        reveal_strlit("FLH");
    }
    assert("FCH"@ =~= seq!['F', 'C', 'H']) by {
        reveal_strlit("FCH");
    }
    assert("FRH"@ =~= seq!['F', 'R', 'H']) by {
        reveal_strlit("FRH");
    }
    assert("TFLC"@ =~= seq!['T', 'F', 'L', 'C']) by {
        reveal_strlit("TFLC");
    }
    assert("TFRC"@ =~= seq!['T', 'F', 'R', 'C']) by {
        reveal_strlit("TFRC");
    }
    assert("TSL"@ =~= seq!['T', 'S', 'L']) by {
        reveal_strlit("TSL");
    }
    assert("TSR"@ =~= seq!['T', 'S', 'R']) by {
        reveal_strlit("TSR");
    }
    assert("LLFE"@ =~= seq!['L', 'L', 'F', 'E']) by {
        reveal_strlit("LLFE");
    }
    assert("RLFE"@ =~= seq!['R', 'L', 'F', 'E']) by {
        reveal_strlit("RLFE");
    }
    assert("BC"@ =~= seq!['B', 'C']) by {
        reveal_strlit("BC");
    }
    assert("BLC"@ =~= seq!['B', 'L', 'C']) by {
        reveal_strlit("BLC");
    }
    assert("BRC"@ =~= seq!['B', 'R', 'C']) by {
        reveal_strlit("BRC");
    }
}

/// Bytes that one sample of one channel occupies.
pub fn get_channel_size(format: SampleFormat) -> (size: usize)
    ensures
        size == format.sample_bytes(),
{
    match format {
        SampleFormat::S8
        | SampleFormat::U8 => 1,
        SampleFormat::S16LE
        | SampleFormat::S16BE
        | SampleFormat::U16LE
        | SampleFormat::U16BE => 2,
        SampleFormat::S24LE
        | SampleFormat::S24BE
        | SampleFormat::U24LE
        | SampleFormat::U24BE
        | SampleFormat::S20LE
        | SampleFormat::S20BE
        | SampleFormat::U20LE
        | SampleFormat::U20BE
        | SampleFormat::S18LE
        | SampleFormat::S18BE
        | SampleFormat::U18LE
        | SampleFormat::U18BE => 3,
        SampleFormat::S24_32LE
        | SampleFormat::S24_32BE
        | SampleFormat::U24_32LE
        | SampleFormat::U24_32BE
        | SampleFormat::S32LE
        | SampleFormat::S32BE
        | SampleFormat::U32LE
        | SampleFormat::U32BE
        | SampleFormat::F32LE
        | SampleFormat::F32BE => 4,
        SampleFormat::F64LE
        | SampleFormat::F64BE => 8,
    }
}

/// Bytes per sample frame: one sample of `format` for each of `channels`
/// channels. Refused if there are more channels than `max_channels`, or if
/// the stride does not fit the machine's word.
pub fn frame_stride(format: SampleFormat, channels: usize, max_channels: usize) -> (r: Result<
    usize,
    ConfigError,
>)
    ensures
        r matches Ok(stride) ==> stride == format.sample_bytes() * channels,
        r matches Err(e) ==> e == ConfigError::TooManyChannels,
        r is Err <==> channels > max_channels || format.sample_bytes() * channels > usize::MAX,
{
    if channels > max_channels {
        return Err(ConfigError::TooManyChannels);
    }
    match get_channel_size(format).checked_mul(channels) {
        Some(stride) => Ok(stride),
        None => Err(ConfigError::TooManyChannels),
    }
}

} // verus!
