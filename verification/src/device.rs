//! The life of a device between two informs: which key and flags the next
//! inform goes out with, when it is due, and what an answer of the controller
//! changes.

use crate::byte_order::ByteOrder;
use crate::config::{apply_cfg, empty_config, Config, ConfigView};
use crate::inform::payload::command::OpnFiInformPayloadCommand;
use crate::inform::payload::json::{payload_parse, CommandView, ParsedPayload, ParsedPayloadView};
use crate::inform::payload::OpnFiInformPayload;
use crate::inform::{
    frame_parse, read_frame, HEADER_SIZE, MASTER_INFORM_KEY, UNIFI_MAGIC_HEADER,
};
use vstd::prelude::*;
use vstd::string::{StrSliceExecFns, StringExecFns};
use vstd::utf8::encode_utf8;

verus! {

/// The seconds between two informs until the controller says otherwise.
pub const DEFAULT_INTERVAL: u64 = 10;

/// The flags of every inform: encrypted and compressed with zlib.
pub const BASE_FLAGS: u16 = 0x03;

/// The flags of an inform that is encrypted with GCM.
pub const GCM_FLAGS: u16 = 0x0B;

// ===== Keys =====
/// The number that a hexadecimal digit stands for.
pub open spec fn hex_digit(c: u8) -> Option<u8> {
    if 0x30 <= c <= 0x39 {
        Some((c - 0x30) as u8)
    } else if 0x41 <= c <= 0x46 {
        Some((c - 0x41 + 10) as u8)
    } else if 0x61 <= c <= 0x66 {
        Some((c - 0x61 + 10) as u8)
    } else {
        None
    }
}

/// Whether the text is an even number of hexadecimal digits.
pub open spec fn is_hex(text: Seq<u8>) -> bool {
    text.len() % 2 == 0 && forall|i: int| 0 <= i < text.len() ==> hex_digit(#[trigger] text[i]) is Some
}

/// The bytes that the digits spell, two digits to a byte, the higher one first.
pub open spec fn hex_bytes(text: Seq<u8>) -> Seq<u8> {
    Seq::new(
        text.len() / 2,
        |i: int| (hex_digit(text[2 * i])->Some_0 * 16 + hex_digit(text[2 * i + 1])->Some_0) as u8,
    )
}

/// `hex::decode`: gives the bytes that the digits spell, in either case of the
/// letters, and `None` where the text has an odd length or holds anything but
/// hexadecimal digits.
#[verifier::external_body]
fn hex_decode(text: &[u8]) -> (r: Option<Vec<u8>>)
    ensures
        r is Some <==> is_hex(text@),
        r matches Some(v) ==> v@ == hex_bytes(text@),
{
    hex::decode(text).ok()
}

/// The key that the text of an `authkey` spells: its 16 bytes where the text is
/// 32 hexadecimal digits, and no key otherwise.
pub open spec fn key_of_authkey(authkey: Seq<char>) -> Option<Seq<u8>> {
    let text = encode_utf8(authkey);
    if is_hex(text) && text.len() == 32 {
        Some(hex_bytes(text))
    } else {
        None
    }
}

/// The key that the text of an `authkey` spells, see `key_of_authkey`.
pub fn key_from_authkey(authkey: &str) -> (r: Option<[u8; 16]>)
    ensures
        match key_of_authkey(authkey@) {
            Some(k) => r matches Some(x) && x@ == k,
            None => r is None,
        },
{
    let text = authkey.as_bytes_vec();
    match hex_decode(text.as_slice()) {
        Some(bytes) => {
            if bytes.len() != 16 {
                return None;
            }
            let mut key: [u8; 16] = [0u8; 16];
            let mut i: usize = 0;
            while i < 16
                invariant
                    i <= 16,
                    bytes@.len() == 16,
                    forall|k: int| 0 <= k < i ==> key@[k] == bytes@[k],
                decreases 16 - i,
            {
                key[i] = bytes[i];
                i += 1;
            }
            proof {
                assert(key@ =~= bytes@);
            }
            Some(key)
        },
        None => None,
    }
}

// ===== State =====
/// What the device has to do with its stored settings after an answer.
#[derive(Clone, Copy, Debug, PartialEq, Eq, Structural)]
pub enum DeviceAction {
    /// Nothing.
    Nothing,
    /// Store the settings that the device now holds.
    SaveConfig,
    /// Remove the stored settings.
    RemoveConfig,
}

/// A device between two informs. Times are in milliseconds from any fixed start.
#[derive(PartialEq, Clone, Debug)]
pub struct Device {
    /// The settings of an adopted device; none before adoption.
    pub config: Option<Config>,
    /// The seconds to wait between two informs.
    pub interval: u64,
    /// When the last inform went out.
    pub last_inform: u64,
    /// Whether an inform is to go out at once.
    pub send_inform: bool,
}

/// What a `Device` holds.
pub struct DeviceView {
    pub config: Option<ConfigView>,
    pub interval: u64,
    pub last_inform: u64,
    pub send_inform: bool,
}

impl View for Device {
    type V = DeviceView;

    open spec fn view(&self) -> DeviceView {
        DeviceView {
            config: match self.config {
                Some(c) => Some(c@),
                None => None,
            },
            interval: self.interval,
            last_inform: self.last_inform,
            send_inform: self.send_inform,
        }
    }
}

impl DeviceView {
    /// The key that informs are encrypted under: the one that the settings of
    /// an adopted device spell; none, which stands for the master key, before
    /// adoption or where the settings spell no key.
    pub open spec fn key(self) -> Option<Seq<u8>> {
        match self.config {
            Some(c) => key_of_authkey(c.authkey),
            None => None,
        }
    }

    /// The key that frames are read and written under: the device's own, or the
    /// master key.
    pub open spec fn frame_key(self) -> Seq<u8> {
        match self.key() {
            Some(k) => k,
            None => MASTER_INFORM_KEY@,
        }
    }

    /// The flags of the next inform: encrypted and compressed with zlib, and
    /// encrypted with GCM where the settings of an adopted device ask for it.
    pub open spec fn flags(self) -> u16 {
        match self.config {
            Some(c) => if c.use_aes_gcm {
                GCM_FLAGS
            } else {
                BASE_FLAGS
            },
            None => BASE_FLAGS,
        }
    }

    /// The whole seconds from the last inform to `now`; none where `now` is earlier.
    pub open spec fn waited(self, now: u64) -> int {
        if now >= self.last_inform {
            (now - self.last_inform) / 1000
        } else {
            0
        }
    }

    /// Whether an inform is due at `now`: one is asked for at once, or the
    /// interval has passed since the last one.
    pub open spec fn due(self, now: u64) -> bool {
        self.send_inform || self.waited(now) >= self.interval
    }

    /// The device after a command: `noop` sets the interval; `setparam` with a
    /// management configuration takes its lines over, into the settings there
    /// are or into new ones, and asks for an inform at once; `setdefault`
    /// drops the settings and asks for an inform at once; any other command
    /// changes nothing.
    pub open spec fn after(self, command: CommandView) -> DeviceView {
        match command {
            CommandView::NoOp { interval, .. } => DeviceView { interval, ..self },
            CommandView::SetParam { mgmt_cfg: Some(text), .. } => DeviceView {
                config: Some(
                    apply_cfg(
                        match self.config {
                            Some(c) => c,
                            None => empty_config(),
                        },
                        text,
                    ),
                ),
                send_inform: true,
                ..self
            },
            CommandView::SetDefault { .. } => DeviceView {
                config: None,
                send_inform: true,
                ..self
            },
            _ => self,
        }
    }
}

/// What a command asks the device to do with its stored settings.
pub open spec fn action_of(command: CommandView) -> DeviceAction {
    match command {
        CommandView::SetParam { mgmt_cfg: Some(_), .. } => DeviceAction::SaveConfig,
        CommandView::SetDefault { .. } => DeviceAction::RemoveConfig,
        _ => DeviceAction::Nothing,
    }
}

/// What an answer of the controller carries for a device with this key; `None`
/// where the answer is shorter than a frame header or holds no frame that can
/// be read under the key.
pub open spec fn answer_of(order: ByteOrder, key: Seq<u8>, body: Seq<u8>) -> Option<
    ParsedPayloadView,
> {
    if body.len() < HEADER_SIZE {
        None
    } else {
        match frame_parse(order, key, UNIFI_MAGIC_HEADER, body) {
            Ok((_, payload)) => Some(payload_parse(payload)),
            Err(_) => None,
        }
    }
}

impl Device {
    /// A device with these settings, or none, that is to inform at once and
    /// then every 10 seconds. Its last inform counts as 10 seconds before `now`.
    pub fn new(config: Option<Config>, now: u64) -> (r: Self)
        ensures
            r.config == config,
            r.interval == DEFAULT_INTERVAL,
            r.send_inform,
            r.last_inform == if now >= 10000 {
                (now - 10000) as u64
            } else {
                0
            },
    {
        Device {
            config,
            interval: DEFAULT_INTERVAL,
            last_inform: if now >= 10000 {
                now - 10000
            } else {
                0
            },
            send_inform: true,
        }
    }

    /// Whether the device has been adopted: it holds settings.
    pub fn is_adopted(&self) -> (r: bool)
        ensures
            r == self@.config is Some,
    {
        self.config.is_some()
    }

    /// Whether the device reports itself as being in its default state: it has
    /// not been adopted.
    pub fn is_default(&self) -> (r: bool)
        ensures
            r == self@.config is None,
    {
        self.config.is_none()
    }

    /// The key that the next inform is encrypted under; none stands for the
    /// master key.
    pub fn key(&self) -> (r: Option<[u8; 16]>)
        ensures
            match self@.key() {
                Some(k) => r matches Some(x) && x@ == k,
                None => r is None,
            },
    {
        match &self.config {
            Some(c) => key_from_authkey(c.authkey.as_str()),
            None => None,
        }
    }

    /// The flags of the next inform.
    pub fn flags(&self) -> (r: u16)
        ensures
            r == self@.flags(),
    {
        match &self.config {
            Some(c) => if c.use_aes_gcm {
                GCM_FLAGS
            } else {
                BASE_FLAGS
            },
            None => BASE_FLAGS,
        }
    }

    /// The version of its settings that the device reports: the one it was
    /// given, or `0123456789abcdef` before adoption.
    pub fn cfgversion(&self) -> (r: String)
        ensures
            r@ == match self@.config {
                Some(c) => c.cfgversion,
                None => "0123456789abcdef"@,
            },
    {
        match &self.config {
            Some(c) => c.cfgversion.clone(),
            None => String::from_str("0123456789abcdef"),
        }
    }

    /// Says whether an inform is to go out at `now`. Where one is, `now` is
    /// noted as the time of the last inform and nothing is asked for at once
    /// any more; where none is, nothing changes.
    pub fn tick(&mut self, now: u64) -> (r: bool)
        ensures
            r == old(self)@.due(now),
            r ==> final(self)@ == (DeviceView {
                last_inform: now,
                send_inform: false,
                ..old(self)@
            }),
            !r ==> final(self)@ == old(self)@,
    {
        let waited: u64 = if now >= self.last_inform {
            (now - self.last_inform) / 1000
        } else {
            0
        };
        if self.send_inform || waited >= self.interval {
            self.send_inform = false;
            self.last_inform = now;
            true
        } else {
            false
        }
    }

    /// Notes that an inform could not be sent: the next one is due after 10 seconds.
    pub fn on_send_failed(&mut self)
        ensures
            final(self)@ == (DeviceView { interval: DEFAULT_INTERVAL, ..old(self)@ }),
    {
        self.interval = DEFAULT_INTERVAL;
    }

    /// Notes that the controller refused an inform: the next one is due after
    /// 10 seconds.
    pub fn on_rejected(&mut self)
        ensures
            final(self)@ == (DeviceView { interval: DEFAULT_INTERVAL, ..old(self)@ }),
    {
        self.interval = DEFAULT_INTERVAL;
    }

    /// Does what a command asks for, see `DeviceView::after`, and says what is
    /// to be done with the stored settings.
    pub fn apply_command(&mut self, command: OpnFiInformPayloadCommand) -> (r: DeviceAction)
        ensures
            final(self)@ == old(self)@.after(command@),
            r == action_of(command@),
    {
        match command {
            OpnFiInformPayloadCommand::NoOp(noop) => {
                self.interval = noop.interval();
                DeviceAction::Nothing
            },
            OpnFiInformPayloadCommand::SetParam(params) => {
                match params.mgmt_cfg {
                    Some(text) => {
                        let mut config = match self.config.take() {
                            Some(c) => c,
                            None => Config::new(),
                        };
                        config.update_from_mgmt_cfg(text);
                        self.config = Some(config);
                        self.send_inform = true;
                        DeviceAction::SaveConfig
                    },
                    None => DeviceAction::Nothing,
                }
            },
            OpnFiInformPayloadCommand::SetDefault(_) => {
                self.config = None;
                self.send_inform = true;
                DeviceAction::RemoveConfig
            },
            _ => DeviceAction::Nothing,
        }
    }

    /// Does what a payload asks for: a command as `apply_command` says, the
    /// report of a gateway nothing.
    pub fn apply(&mut self, payload: OpnFiInformPayload) -> (r: DeviceAction)
        ensures
            match payload {
                OpnFiInformPayload::Command(c) => final(self)@ == old(self)@.after(c@) && r
                    == action_of(c@),
                OpnFiInformPayload::Gateway(_) => final(self)@ == old(self)@ && r
                    == DeviceAction::Nothing,
            },
    {
        match payload {
            OpnFiInformPayload::Command(c) => self.apply_command(c),
            OpnFiInformPayload::Gateway(_) => DeviceAction::Nothing,
        }
    }

    /// Takes the answer of the controller to an inform, see `answer_of`. An
    /// answer that carries no readable frame changes nothing, and neither does
    /// a payload that is a report. A payload that is unreadable stands for the
    /// command to inform again after 10 seconds: it sets the interval to that.
    /// A command is done as `apply_command` says.
    pub fn on_response(&mut self, order: ByteOrder, body: &[u8]) -> (r: DeviceAction)
        ensures
            match answer_of(order, old(self)@.frame_key(), body@) {
                None => final(self)@ == old(self)@ && r == DeviceAction::Nothing,
                Some(ParsedPayloadView::Report) => final(self)@ == old(self)@ && r
                    == DeviceAction::Nothing,
                Some(ParsedPayloadView::Unreadable) => final(self)@ == (DeviceView {
                    interval: DEFAULT_INTERVAL,
                    ..old(self)@
                }) && r == DeviceAction::Nothing,
                Some(ParsedPayloadView::Command(c)) => final(self)@ == old(self)@.after(c) && r
                    == action_of(c),
            },
    {
        if body.len() < HEADER_SIZE {
            return DeviceAction::Nothing;
        }
        let key = self.key();
        match read_frame(order, key, None, body) {
            Ok((_, payload)) => {
                match ParsedPayload::from_data(payload.as_slice()) {
                    ParsedPayload::Command(command) => self.apply_command(command),
                    ParsedPayload::Report => DeviceAction::Nothing,
                    ParsedPayload::Unreadable => {
                        self.interval = DEFAULT_INTERVAL;
                        DeviceAction::Nothing
                    },
                }
            },
            Err(_) => DeviceAction::Nothing,
        }
    }
}

/// After an inform has gone out, none is due before the interval has passed,
/// unless one is asked for at once.
pub proof fn lemma_not_due_before_interval(device: DeviceView, sent: u64, now: u64)
    requires
        device.last_inform == sent,
        !device.send_inform,
        sent <= now,
        now - sent < device.interval * 1000,
    ensures
        !device.due(now),
{
    assert((now - sent) / 1000 < device.interval) by (nonlinear_arith)
        requires
            0 <= now - sent < device.interval * 1000,
    ;
}

/// Once the interval has passed since the last inform, one is due.
pub proof fn lemma_due_after_interval(device: DeviceView, now: u64)
    requires
        device.last_inform <= now,
        now - device.last_inform >= device.interval * 1000,
    ensures
        device.due(now),
{
    assert((now - device.last_inform) / 1000 >= device.interval) by (nonlinear_arith)
        requires
            now - device.last_inform >= device.interval * 1000,
            device.interval >= 0,
    ;
}

} // verus!
