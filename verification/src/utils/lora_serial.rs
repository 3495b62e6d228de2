//! The byte-level protocol of an E22-style SX1262 UART adapter: the mode
//! pins, the addressed wire frame, the configuration command with its
//! acknowledgement, and the channel RSSI query. The serial port and the pins
//! themselves are driven by the caller.

use vstd::prelude::*;

verus! {

/// Baud rate of the UART side of the adapter.
#[derive(Debug, Clone, Copy, PartialEq, Eq, Structural)]
pub enum UartBaudRate {
    Baud1200,
    Baud2400,
    Baud4800,
    Baud9600,
    Baud19200,
    Baud38400,
    Baud57600,
    Baud115200,
}

/// Size of the packets into which the adapter splits its buffer.
#[derive(Debug, Clone, Copy, PartialEq, Eq, Structural)]
pub enum PackageSize {
    Size240Byte,
    Size128Byte,
    Size64Byte,
    Size32Byte,
}

/// Transmission power of the adapter.
#[derive(Debug, Clone, Copy, PartialEq, Eq, Structural)]
pub enum PowerLevel {
    Power22dBm,
    Power17dBm,
    Power13dBm,
    Power10dBm,
}

/// Data rate on the air.
#[derive(Debug, Clone, Copy, PartialEq, Eq, Structural)]
pub enum AirSpeed {
    Speed1200,
    Speed2400,
    Speed4800,
    Speed9600,
    Speed19200,
    Speed38400,
    Speed62500,
}

impl UartBaudRate {
    /// Bits of the baud rate in the configuration register.
    pub open spec fn spec_code(self) -> u8 {
        match self {
            UartBaudRate::Baud1200 => 0x00,
            UartBaudRate::Baud2400 => 0x20,
            UartBaudRate::Baud4800 => 0x40,
            UartBaudRate::Baud9600 => 0x60,
            UartBaudRate::Baud19200 => 0x80,
            UartBaudRate::Baud38400 => 0xA0,
            UartBaudRate::Baud57600 => 0xC0,
            UartBaudRate::Baud115200 => 0xE0,
        }
    }

    /// Bits of the baud rate in the configuration register.
    pub fn code(self) -> (code: u8)
        ensures
            code == self.spec_code(),
    {
        match self {
            UartBaudRate::Baud1200 => 0x00,
            UartBaudRate::Baud2400 => 0x20,
            UartBaudRate::Baud4800 => 0x40,
            UartBaudRate::Baud9600 => 0x60,
            UartBaudRate::Baud19200 => 0x80,
            UartBaudRate::Baud38400 => 0xA0,
            UartBaudRate::Baud57600 => 0xC0,
            UartBaudRate::Baud115200 => 0xE0,
        }
    }
}

impl PackageSize {
    /// Bits of the packet size in the configuration register.
    pub open spec fn spec_code(self) -> u8 {
        match self {
            PackageSize::Size240Byte => 0x00,
            PackageSize::Size128Byte => 0x40,
            PackageSize::Size64Byte => 0x80,
            PackageSize::Size32Byte => 0xC0,
        }
    }

    /// Bits of the packet size in the configuration register.
    pub fn code(self) -> (code: u8)
        ensures
            code == self.spec_code(),
    {
        match self {
            PackageSize::Size240Byte => 0x00,
            PackageSize::Size128Byte => 0x40,
            PackageSize::Size64Byte => 0x80,
            PackageSize::Size32Byte => 0xC0,
        }
    }
}

impl PowerLevel {
    /// Bits of the power level in the configuration register.
    pub open spec fn spec_code(self) -> u8 {
        match self {
            PowerLevel::Power22dBm => 0x00,
            PowerLevel::Power17dBm => 0x01,
            PowerLevel::Power13dBm => 0x02,
            PowerLevel::Power10dBm => 0x03,
        }
    }

    /// Bits of the power level in the configuration register.
    pub fn code(self) -> (code: u8)
        ensures
            code == self.spec_code(),
    {
        match self {
            PowerLevel::Power22dBm => 0x00,
            PowerLevel::Power17dBm => 0x01,
            PowerLevel::Power13dBm => 0x02,
            PowerLevel::Power10dBm => 0x03,
        }
    }
}

impl AirSpeed {
    /// Bits of the air speed in the configuration register.
    pub open spec fn spec_code(self) -> u8 {
        match self {
            AirSpeed::Speed1200 => 0x01,
            AirSpeed::Speed2400 => 0x02,
            AirSpeed::Speed4800 => 0x03,
            AirSpeed::Speed9600 => 0x04,
            AirSpeed::Speed19200 => 0x05,
            AirSpeed::Speed38400 => 0x06,
            AirSpeed::Speed62500 => 0x07,
        }
    }

    /// Bits of the air speed in the configuration register.
    pub fn code(self) -> (code: u8)
        ensures
            code == self.spec_code(),
    {
        match self {
            AirSpeed::Speed1200 => 0x01,
            AirSpeed::Speed2400 => 0x02,
            AirSpeed::Speed4800 => 0x03,
            AirSpeed::Speed9600 => 0x04,
            AirSpeed::Speed19200 => 0x05,
            AirSpeed::Speed38400 => 0x06,
            AirSpeed::Speed62500 => 0x07,
        }
    }
}

/// Level of a control pin.
#[derive(Debug, Clone, Copy, PartialEq, Eq, Structural)]
pub enum PinLevel {
    Low,
    High,
}

/// Levels of the two mode pins of the adapter.
#[derive(Debug, Clone, Copy, PartialEq, Eq, Structural)]
pub struct ModePins {
    pub m0: PinLevel,
    pub m1: PinLevel,
}

/// Mode in which the adapter carries data: both pins low.
pub const NORMAL_MODE: (bool, bool) = (false, false);

/// Mode in which the adapter takes configuration commands: M1 high.
pub const CONFIGURATION_MODE: (bool, bool) = (false, true);

/// First byte of an acknowledged command.
pub const ACKNOWLEDGE: u8 = 0xC1;

/// Number of times that the configuration command is written before the
/// adapter is taken as it is.
pub const CONFIGURATION_ATTEMPTS: u8 = 2;

/// Number of bytes that precede the payload in a frame sent to the adapter.
pub const SEND_PREFIX_LEN: usize = 6;

/// Number of bytes that precede the payload in what the adapter hands back.
pub const RECEIVE_PREFIX_LEN: usize = 3;

/// Milliseconds to wait before a read from the serial port.
pub const READ_DELAY_MS: u64 = 300;

/// Milliseconds that the adapter needs after a change of mode.
pub const MODE_SETTLE_MS: u64 = 100;

/// Milliseconds that the adapter needs to process a configuration command.
pub const CONFIGURATION_SETTLE_MS: u64 = 200;

/// What the adapter handed back for one reception.
pub struct ReceiveResult {
    /// Payload, without the address and frequency bytes in front of it.
    pub data: Vec<u8>,
    /// Channel RSSI, as queried after the reception.
    pub rssi: Option<i16>,
    /// Noise byte that ends the reception.
    pub snr: Option<u8>,
}

/// Why a channel RSSI cannot be given.
#[derive(Debug, Clone, Copy, PartialEq, Eq, Structural)]
pub enum ChannelRssiError {
    /// The response is not that of the RSSI query.
    InvalidResponse,
    /// The query could not be written or its response could not be read.
    QueryFailed,
}

/// What to do after an attempt to configure the adapter.
#[derive(Debug, Clone, Copy, PartialEq, Eq, Structural)]
pub enum ConfigurationStep {
    /// The adapter acknowledged the command.
    Acknowledged,
    /// No acknowledgement: write the command again.
    Retry,
    /// No acknowledgement after the last attempt: go on regardless.
    Unacknowledged,
}

/// Levels of the mode pins for a mode given as (M0 high, M1 high).
pub open spec fn spec_mode_pins(mode: (bool, bool)) -> ModePins {
    ModePins {
        m0: if mode.0 {
            PinLevel::High
        } else {
            PinLevel::Low
        },
        m1: if mode.1 {
            PinLevel::High
        } else {
            PinLevel::Low
        },
    }
}

/// Start of the band that a frequency in MHz belongs to: 850 for the 868/915
/// band, 410 for the 433 band.
pub open spec fn spec_start_frequency(freq: u32) -> u16 {
    if freq > 850 {
        850
    } else {
        410
    }
}

/// Offset of a frequency in MHz from the start of its band, as the byte that
/// the adapter takes: the difference modulo 256.
pub open spec fn spec_frequency_offset(freq: u32) -> u8 {
    ((freq - spec_start_frequency(freq)) % 256) as u8
}

/// High byte of a 16-bit value.
pub open spec fn spec_high_byte(value: u16) -> u8 {
    (value / 256) as u8
}

/// Low byte of a 16-bit value.
pub open spec fn spec_low_byte(value: u16) -> u8 {
    (value % 256) as u8
}

/// The frame that the adapter takes for a payload: destination address,
/// destination frequency offset, own address, own frequency offset, payload.
pub open spec fn spec_send_frame(
    node_addr: u16,
    freq: u32,
    own_addr: u16,
    own_offset: u16,
    payload: Seq<u8>,
) -> Seq<u8> {
    seq![
        spec_high_byte(node_addr),
        spec_low_byte(node_addr),
        spec_frequency_offset(freq),
        spec_high_byte(own_addr),
        spec_low_byte(own_addr),
        spec_low_byte(own_offset),
    ] + payload
}

/// The configuration command: header `C2 00 09`, address, network id, baud
/// rate with air speed, packet size with power and the noise flag, frequency
/// offset, transmission mode with the RSSI flag, and the key.
pub open spec fn spec_configuration_command(
    freq: u32,
    addr: u16,
    net_id: u16,
    power: PowerLevel,
    rssi: bool,
    air_speed: AirSpeed,
    buffer_size: PackageSize,
    crypt: u16,
) -> Seq<u8> {
    seq![
        0xC2u8,
        0x00u8,
        0x09u8,
        spec_high_byte(addr),
        spec_low_byte(addr),
        spec_low_byte(net_id),
        UartBaudRate::Baud9600.spec_code() | air_speed.spec_code(),
        buffer_size.spec_code() | power.spec_code() | 0x20u8,
        spec_frequency_offset(freq),
        0x43u8 | (if rssi {
            0x80u8
        } else {
            0x00u8
        }),
        spec_high_byte(crypt),
        spec_low_byte(crypt),
    ]
}

/// Whether a response acknowledges a command: its first byte is `C1`.
pub open spec fn spec_is_acknowledged(response: Seq<u8>) -> bool {
    response.len() > 0 && response[0] == ACKNOWLEDGE
}

/// What follows the attempt that came after `attempts_before` failed ones.
pub open spec fn spec_configuration_step(attempts_before: u8, response: Seq<u8>)
    -> ConfigurationStep {
    if spec_is_acknowledged(response) {
        ConfigurationStep::Acknowledged
    } else if attempts_before + 1 < CONFIGURATION_ATTEMPTS {
        ConfigurationStep::Retry
    } else {
        ConfigurationStep::Unacknowledged
    }
}

/// The channel RSSI in a response to the RSSI query: the response has at
/// least five bytes and starts with `C1 00 02`, and the RSSI is 256 minus
/// its fourth byte.
pub open spec fn spec_channel_rssi(response: Seq<u8>) -> Option<i16> {
    if response.len() >= 5 && response[0] == ACKNOWLEDGE && response[1] == 0x00 && response[2]
        == 0x02 {
        Some((256 - response[3]) as i16)
    } else {
        None
    }
}

/// Appends `bytes` to `buffer`.
pub fn append_bytes(buffer: &mut Vec<u8>, bytes: &[u8])
    ensures
        final(buffer)@ == old(buffer)@ + bytes@,
{
    let mut i: usize = 0;
    while i < bytes.len()
        invariant
            i <= bytes@.len(),
            buffer@ == old(buffer)@ + bytes@.take(i as int),
        decreases bytes@.len() - i,
    {
        buffer.push(bytes[i]);
        i = i + 1;
        assert(buffer@ =~= old(buffer)@ + bytes@.take(i as int));
    }
    assert(bytes@.take(i as int) =~= bytes@);
}

/// Offset of a frequency in MHz from the start of its band, as the byte that
/// the adapter takes.
pub fn frequency_offset(freq: u32) -> (offset: u8)
    ensures
        offset == spec_frequency_offset(freq),
{
    if freq > 850 {
        ((freq - 850) % 256) as u8
    } else if freq >= 410 {
        ((freq - 410) % 256) as u8
    } else {
        ((freq + 102) % 256) as u8
    }
}

/// State of an E22 adapter: its own address and the band it is set to.
pub struct Sx1262UartE22 {
    cfg: Vec<u8>,
    addr: u16,
    start_freq: u16,
    offset_freq: u16,
}

/// Mathematical value of an adapter's state.
pub struct Sx1262UartE22View {
    /// Configuration register image that the adapter starts with.
    pub cfg: Seq<u8>,
    /// Own address.
    pub addr: u16,
    /// Start of the band in MHz.
    pub start_freq: u16,
    /// Own offset from the start of the band.
    pub offset_freq: u16,
}

impl View for Sx1262UartE22 {
    type V = Sx1262UartE22View;

    closed spec fn view(&self) -> Sx1262UartE22View {
        Sx1262UartE22View {
            cfg: self.cfg@,
            addr: self.addr,
            start_freq: self.start_freq,
            offset_freq: self.offset_freq,
        }
    }
}

impl Sx1262UartE22 {
    /// The state of an adapter out of the box.
    pub open spec fn spec_new() -> Sx1262UartE22View {
        Sx1262UartE22View {
            cfg: seq![
                0xC2u8,
                0x00u8,
                0x09u8,
                0x00u8,
                0x00u8,
                0x00u8,
                0x62u8,
                0x00u8,
                0x12u8,
                0x43u8,
                0x00u8,
                0x00u8,
            ],
            addr: 65535,
            start_freq: 850,
            offset_freq: 18,
        }
    }

    /// An adapter out of the box: broadcast address, 868 MHz.
    pub fn new() -> (adapter: Self)
        ensures
            adapter@ == Self::spec_new(),
    {
        let cfg: Vec<u8> = vec![
            0xC2,
            0x00,
            0x09,
            0x00,
            0x00,
            0x00,
            0x62,
            0x00,
            0x12,
            0x43,
            0x00,
            0x00,
        ];
        assert(cfg@ =~= Self::spec_new().cfg);
        Sx1262UartE22 { cfg, addr: 65535, start_freq: 850, offset_freq: 18 }
    }

    /// Levels to put on the mode pins for a mode given as (M0 high, M1 high).
    pub fn set_mode(&self, mode: (bool, bool)) -> (pins: ModePins)
        ensures
            pins == spec_mode_pins(mode),
    {
        match mode {
            (false, false) => ModePins { m0: PinLevel::Low, m1: PinLevel::Low },
            (true, false) => ModePins { m0: PinLevel::High, m1: PinLevel::Low },
            (false, true) => ModePins { m0: PinLevel::Low, m1: PinLevel::High },
            (true, true) => ModePins { m0: PinLevel::High, m1: PinLevel::High },
        }
    }

    /// The bytes to write, in normal mode, to send `message_payload` to the
    /// node at `node_addr` on frequency `freq` (MHz).
    pub fn send(&self, node_addr: u16, freq: u32, message_payload: &Vec<u8>) -> (data: Vec<u8>)
        ensures
            data@ == spec_send_frame(
                node_addr,
                freq,
                self@.addr,
                self@.offset_freq,
                message_payload@,
            ),
    {
        let mut data: Vec<u8> = vec![
            (node_addr / 256) as u8,
            (node_addr % 256) as u8,
            frequency_offset(freq),
            (self.addr / 256) as u8,
            (self.addr % 256) as u8,
            (self.offset_freq % 256) as u8,
        ];
        append_bytes(&mut data, message_payload.as_slice());
        assert(data@ =~= spec_send_frame(
            node_addr,
            freq,
            self@.addr,
            self@.offset_freq,
            message_payload@,
        ));
        data
    }

    /// What one read from the adapter holds.
    pub open spec fn spec_receive(r_buff: Seq<u8>, rssi: i16) -> Option<
        (Seq<u8>, Option<i16>, Option<u8>),
    > {
        if r_buff.len() >= RECEIVE_PREFIX_LEN {
            Some(
                (
                    r_buff.subrange(RECEIVE_PREFIX_LEN as int, r_buff.len() as int),
                    Some(rssi),
                    Some(r_buff.last()),
                ),
            )
        } else {
            None
        }
    }

    /// Takes one read from the adapter apart: the payload follows the two
    /// address bytes and the frequency byte, and the last byte read is the
    /// noise byte. `rssi` is the channel RSSI queried for this reception. A
    /// read too short to hold the three leading bytes holds no packet.
    pub fn receive(&self, r_buff: &[u8], rssi: i16) -> (result: Option<ReceiveResult>)
        ensures
            result.is_some() == Self::spec_receive(r_buff@, rssi).is_some(),
            result matches Some(received) ==> Self::spec_receive(r_buff@, rssi) == Some(
                (received.data@, received.rssi, received.snr),
            ),
    {
        let len = r_buff.len();
        if len >= RECEIVE_PREFIX_LEN {
            let noise = r_buff[len - 1];
            let data = vstd::slice::slice_to_vec(
                vstd::slice::slice_subrange(r_buff, RECEIVE_PREFIX_LEN, len),
            );
            Some(ReceiveResult { data, rssi: Some(rssi), snr: Some(noise) })
        } else {
            None
        }
    }

    /// What one read from the adapter holds, given the outcome of the RSSI
    /// query made for it: nothing when the query failed.
    pub open spec fn spec_receive_queried(
        r_buff: Seq<u8>,
        rssi: Result<i16, ChannelRssiError>,
    ) -> Option<(Seq<u8>, Option<i16>, Option<u8>)> {
        match rssi {
            Ok(value) => Self::spec_receive(r_buff, value),
            Err(_) => None,
        }
    }

    /// Takes one read from the adapter apart as `receive` does, given the
    /// outcome of the channel RSSI query made for it. A reception whose RSSI
    /// query failed is dropped, and so is a read too short to hold the three
    /// leading bytes.
    pub fn receive_queried(
        &self,
        r_buff: &[u8],
        rssi: Result<i16, ChannelRssiError>,
    ) -> (result: Option<ReceiveResult>)
        ensures
            result.is_some() == (rssi.is_ok() && r_buff@.len() >= RECEIVE_PREFIX_LEN),
            result matches Some(received) ==> Self::spec_receive_queried(r_buff@, rssi) == Some(
                (received.data@, received.rssi, received.snr),
            ),
    {
        match rssi {
            Ok(value) => self.receive(r_buff, value),
            Err(_) => None,
        }
    }

    /// Whether a read holds a packet, so that its channel RSSI is worth
    /// querying.
    pub fn holds_packet(r_buff: &[u8]) -> (holds: bool)
        ensures
            holds == (r_buff@.len() >= RECEIVE_PREFIX_LEN),
    {
        r_buff.len() >= RECEIVE_PREFIX_LEN
    }

    /// Sets the own address of the adapter to `addr` and its band from `freq`
    /// (MHz), and gives the configuration command to write in configuration
    /// mode. Frames sent from then on carry the new address and offset as
    /// their source.
    pub fn set(
        &mut self,
        freq: u32,
        addr: u16,
        net_id: u16,
        power: PowerLevel,
        rssi: bool,
        air_speed: AirSpeed,
        buffer_size: PackageSize,
        crypt: u16,
    ) -> (cfg_cmd: Vec<u8>)
        ensures
            cfg_cmd@ == spec_configuration_command(
                freq,
                addr,
                net_id,
                power,
                rssi,
                air_speed,
                buffer_size,
                crypt,
            ),
            final(self)@ == (Sx1262UartE22View {
                addr,
                start_freq: spec_start_frequency(freq),
                offset_freq: spec_frequency_offset(freq) as u16,
                ..old(self)@
            }),
    {
        let offset_freq = frequency_offset(freq);
        self.addr = addr;
        self.start_freq = if freq > 850 {
            850
        } else {
            410
        };
        self.offset_freq = offset_freq as u16;
        let rssi_temp: u8 = if rssi {
            0x80
        } else {
            0x00
        };
        let cfg_cmd: Vec<u8> = vec![
            0xC2,
            0x00,
            0x09,
            (addr / 256) as u8,
            (addr % 256) as u8,
            (net_id % 256) as u8,
            UartBaudRate::Baud9600.code() | air_speed.code(),
            buffer_size.code() | power.code() | 0x20,
            offset_freq,
            0x43 | rssi_temp,
            (crypt / 256) as u8,
            (crypt % 256) as u8,
        ];
        assert(cfg_cmd@ =~= spec_configuration_command(
            freq,
            addr,
            net_id,
            power,
            rssi,
            air_speed,
            buffer_size,
            crypt,
        ));
        cfg_cmd
    }

    /// Decides what follows an attempt to configure the adapter, from the
    /// number of attempts that failed before it and the response read after
    /// it: done on an acknowledgement, one more attempt after the first
    /// failure, and no more after the second.
    pub fn configuration_step(attempts_before: u8, response: &[u8]) -> (step: ConfigurationStep)
        ensures
            step == spec_configuration_step(attempts_before, response@),
    {
        if response.len() > 0 && response[0] == ACKNOWLEDGE {
            ConfigurationStep::Acknowledged
        } else if attempts_before < CONFIGURATION_ATTEMPTS - 1 {
            ConfigurationStep::Retry
        } else {
            ConfigurationStep::Unacknowledged
        }
    }

    /// The command that queries the channel RSSI, to write in normal mode.
    pub fn channel_rssi_command() -> (command: Vec<u8>)
        ensures
            command@ == seq![0xC0u8, 0xC1u8, 0xC2u8, 0xC3u8, 0x00u8, 0x02u8],
    {
        let command: Vec<u8> = vec![0xC0, 0xC1, 0xC2, 0xC3, 0x00, 0x02];
        assert(command@ =~= seq![0xC0u8, 0xC1u8, 0xC2u8, 0xC3u8, 0x00u8, 0x02u8]);
        command
    }

    /// Reads the channel RSSI out of the response to the RSSI query.
    pub fn get_channel_rssi(response: &[u8]) -> (rssi: Result<i16, ChannelRssiError>)
        ensures
            rssi.is_ok() == spec_channel_rssi(response@).is_some(),
            rssi matches Ok(value) ==> spec_channel_rssi(response@) == Some(value),
            rssi matches Err(error) ==> error == ChannelRssiError::InvalidResponse,
    {
        if response.len() >= 5 && response[0] == ACKNOWLEDGE && response[1] == 0x00 && response[2]
            == 0x02 {
            let level: i16 = response[3] as i16;
            Ok(256 - level)
        } else {
            Err(ChannelRssiError::InvalidResponse)
        }
    }
}

} // verus!
