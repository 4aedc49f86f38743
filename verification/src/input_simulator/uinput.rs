//! The virtual input device strategy: a keyboard is created through the
//! kernel's uinput node, types Ctrl+V and is destroyed again. It works under
//! any display server, given permission to open the node.

use vstd::prelude::*;
use vstd::string::*;
use crate::error::{ErrorKind, PasteError, PasteErrorView};
use crate::input_simulator::PasteKey;
use crate::script::Step;

verus! {

pub const EV_SYN: u16 = 0x00;

pub const EV_KEY: u16 = 0x01;

pub const SYN_REPORT: u16 = 0x00;

pub const UI_SET_EVBIT: u64 = 0x40045564;

pub const UI_SET_KEYBIT: u64 = 0x40045565;

pub const UI_DEV_SETUP: u64 = 0x405c5503;

pub const UI_DEV_CREATE: u64 = 0x5501;

pub const UI_DEV_DESTROY: u64 = 0x5502;

/// The size of the device description: four 16 bit identifiers, the name
/// field and a 32 bit count.
pub const SETUP_SIZE: u64 = 92;

/// A request code of the kernel's control calls: the direction of the data,
/// the size of what is handed over, the group of the driver and the number
/// of the request within it.
pub open spec fn control_code(direction: u64, size: u64, group: u64, number: u64) -> int {
    direction * 0x4000_0000 + size * 0x1_0000 + group * 0x100 + number
}

/// The request codes are those of the uinput driver, group `U`: the two
/// declarations write a number of four bytes, the setup writes the device
/// description, and creating and destroying hand nothing over.
pub proof fn lemma_control_codes()
    ensures
        UI_SET_EVBIT == control_code(1, 4, 0x55, 100),
        UI_SET_KEYBIT == control_code(1, 4, 0x55, 101),
        UI_DEV_SETUP == control_code(1, SETUP_SIZE, 0x55, 3),
        UI_DEV_CREATE == control_code(0, 0, 0x55, 1),
        UI_DEV_DESTROY == control_code(0, 0, 0x55, 2),
        SETUP_SIZE == 4 * 2 + NAME_SIZE + 4,
{
}

/// The size of one event record: a 16 byte timestamp, then type, code and value.
pub const EVENT_SIZE: usize = 24;

/// The size of the name field of the device description.
pub const NAME_SIZE: usize = 80;

/// Milliseconds the kernel is given to announce the new device, and to
/// deliver the last event before the device goes away.
pub const DEVICE_SETTLE_MILLIS: u64 = 50;

/// Milliseconds between two key events.
pub const KEY_GAP_MILLIS: u64 = 10;

/// One record of the kernel's input event stream, without its timestamp.
#[derive(Clone, Copy, Debug, PartialEq, Eq, Structural)]
pub struct InputEvent {
    pub kind: u16,
    pub code: u16,
    pub value: i32,
}

/// The two bytes of `x`, low byte first.
pub open spec fn le16(x: u16) -> Seq<u8> {
    seq![(x % 256) as u8, (x / 256) as u8]
}

/// The two bytes of `x`, high byte first.
pub open spec fn be16(x: u16) -> Seq<u8> {
    seq![(x / 256) as u8, (x % 256) as u8]
}

/// `x` as an unsigned 32 bit number in two's complement.
pub open spec fn twos32(x: i32) -> int {
    if x >= 0 {
        x as int
    } else {
        x + 0x1_0000_0000
    }
}

/// The four bytes of `x` in two's complement, low byte first.
pub open spec fn le32(x: i32) -> Seq<u8> {
    let u = twos32(x);
    seq![
        (u % 256) as u8,
        (u / 0x100 % 256) as u8,
        (u / 0x1_0000 % 256) as u8,
        (u / 0x100_0000 % 256) as u8,
    ]
}

/// The four bytes of `x` in two's complement, high byte first.
pub open spec fn be32(x: i32) -> Seq<u8> {
    let u = twos32(x);
    seq![
        (u / 0x100_0000 % 256) as u8,
        (u / 0x1_0000 % 256) as u8,
        (u / 0x100 % 256) as u8,
        (u % 256) as u8,
    ]
}

/// `bytes` is `x` in one of the two byte orders a machine can have.
pub open spec fn native16(x: u16, bytes: Seq<u8>) -> bool {
    bytes == le16(x) || bytes == be16(x)
}

/// `bytes` is `x` in one of the two byte orders a machine can have.
pub open spec fn native32(x: i32, bytes: Seq<u8>) -> bool {
    bytes == le32(x) || bytes == be32(x)
}

/// A record made of a zero timestamp and the three given fields.
pub open spec fn assembled(kind: Seq<u8>, code: Seq<u8>, value: Seq<u8>, record: Seq<u8>) -> bool {
    &&& record.len() == EVENT_SIZE
    &&& forall|i: int| 0 <= i < 16 ==> record[i] == 0
    &&& record.subrange(16, 18) == kind
    &&& record.subrange(18, 20) == code
    &&& record.subrange(20, 24) == value
}

/// `record` is the kernel's record for `event`: a zero timestamp, then the
/// type, the code and the value, each in the machine's byte order.
pub open spec fn encodes(event: InputEvent, record: Seq<u8>) -> bool {
    &&& record.len() == EVENT_SIZE
    &&& forall|i: int| 0 <= i < 16 ==> record[i] == 0
    &&& native16(event.kind, record.subrange(16, 18))
    &&& native16(event.code, record.subrange(18, 20))
    &&& native32(event.value, record.subrange(20, 24))
}

/// `u16::to_ne_bytes` of std: the bytes of `x` in the byte order of the
/// machine, which is one of the two orders.
#[verifier::external_body]
fn u16_ne_bytes(x: u16) -> (bytes: [u8; 2])
    ensures
        native16(x, bytes@),
{
    x.to_ne_bytes()
}

/// `i32::to_ne_bytes` of std: the two's complement bytes of `x` in the byte
/// order of the machine, which is one of the two orders.
#[verifier::external_body]
fn i32_ne_bytes(x: i32) -> (bytes: [u8; 4])
    ensures
        native32(x, bytes@),
{
    x.to_ne_bytes()
}

/// Lays the three fields out behind a zero timestamp.
pub fn assemble_event(kind: [u8; 2], code: [u8; 2], value: [u8; 4]) -> (record: [u8; 24])
    ensures
        assembled(kind@, code@, value@, record@),
{
    let mut record = [0u8;24];
    record[16] = kind[0];
    record[17] = kind[1];
    record[18] = code[0];
    record[19] = code[1];
    record[20] = value[0];
    record[21] = value[1];
    record[22] = value[2];
    record[23] = value[3];
    assert(record@.subrange(16, 18) =~= kind@);
    assert(record@.subrange(18, 20) =~= code@);
    assert(record@.subrange(20, 24) =~= value@);
    record
}

impl InputEvent {
    /// A key going down (`pressed`) or up.
    pub fn key(key: PasteKey, pressed: bool) -> (event: InputEvent)
        ensures
            event == (InputEvent {
                kind: EV_KEY,
                code: key.code_spec(),
                value: if pressed {
                    1i32
                } else {
                    0i32
                },
            }),
    {
        InputEvent {
            kind: EV_KEY,
            code: key.code(),
            value: if pressed {
                1
            } else {
                0
            },
        }
    }

    /// The report that closes a group of events.
    pub fn sync() -> (event: InputEvent)
        ensures
            event == (InputEvent { kind: EV_SYN, code: SYN_REPORT, value: 0 }),
    {
        InputEvent { kind: EV_SYN, code: SYN_REPORT, value: 0 }
    }

    /// The record to write to the device for this event.
    pub fn record(&self) -> (record: [u8; 24])
        ensures
            encodes(*self, record@),
    {
        make_event(self.kind, self.code, self.value)
    }
}

/// The kernel's record for an event of the given type, code and value.
pub fn make_event(kind: u16, code: u16, value: i32) -> (record: [u8; 24])
    ensures
        encodes(InputEvent { kind, code, value }, record@),
{
    assemble_event(u16_ne_bytes(kind), u16_ne_bytes(code), i32_ne_bytes(value))
}

/// The description the device is registered with.
#[derive(Clone, Copy, Debug)]
pub struct DeviceSetup {
    pub bustype: u16,
    pub vendor: u16,
    pub product: u16,
    pub version: u16,
    pub name: [u8; 80],
    pub ff_effects_max: u32,
}

/// The name field for a device called `name`: its characters as bytes, then
/// zero bytes to the end of the field.
pub open spec fn name_field_spec(name: Seq<char>) -> Seq<u8> {
    Seq::new(
        80,
        |i: int|
            if i < name.len() {
                name[i] as u8
            } else {
                0u8
            },
    )
}

pub open spec fn device_name() -> Seq<char> {
    "emoji-paste-helper"@
}

fn name_field(name: &str) -> (field: [u8; 80])
    requires
        name.is_ascii(),
        name@.len() < 80,
    ensures
        field@ == name_field_spec(name@),
{
    let mut field = [0u8;80];
    let n = name.unicode_len();
    let mut i: usize = 0;
    while i < n
        invariant
            name.is_ascii(),
            n == name@.len(),
            n < 80,
            i <= n,
            forall|j: int| 0 <= j < i ==> field@[j] == name@[j] as u8,
            forall|j: int| i <= j < 80 ==> field@[j] == 0,
        decreases n - i,
    {
        field[i] = name.get_ascii(i);
        i = i + 1;
    }
    assert(field@ =~= name_field_spec(name@));
    field
}

/// The description of the helper keyboard: a USB device with made-up
/// identifiers and no force feedback.
pub fn device_setup() -> (setup: DeviceSetup)
    ensures
        setup.bustype == 0x03,
        setup.vendor == 0x1234,
        setup.product == 0x5678,
        setup.version == 0x0001,
        setup.name@ == name_field_spec(device_name()),
        setup.ff_effects_max == 0,
{
    proof {
        reveal_strlit("emoji-paste-helper");
    }
    DeviceSetup {
        bustype: 0x03,
        vendor: 0x1234,
        product: 0x5678,
        version: 0x0001,
        name: name_field("emoji-paste-helper"),
        ff_effects_max: 0,
    }
}

/// One step of the strategy.
#[derive(Clone, Copy, Debug, PartialEq, Eq, Structural)]
pub enum UinputStep {
    /// Open the device node `/dev/uinput` for writing.
    Open,
    /// Declare that the device sends key events: `UI_SET_EVBIT` with `EV_KEY`.
    EnableKeyEvents,
    /// Declare a key: `UI_SET_KEYBIT` with its code.
    EnableKey(PasteKey),
    /// Register the description of `device_setup`: `UI_DEV_SETUP`.
    Setup,
    /// Create the device: `UI_DEV_CREATE`.
    Create,
    /// Wait.
    Sleep { millis: u64 },
    /// Write the record of an event to the device.
    Write(InputEvent),
    /// Flush the device.
    Flush,
    /// Destroy the device: `UI_DEV_DESTROY`. Its failure changes nothing.
    Destroy,
}

/// What a control call hands to the kernel besides its request code.
#[derive(Clone, Copy, Debug, PartialEq, Eq, Structural)]
pub enum ControlArgument {
    Nothing,
    Number(i32),
    Description,
}

impl UinputStep {
    /// The control call that performs this step: the request code and what
    /// goes with it. `None` for a step that is no control call.
    pub open spec fn control_call_spec(self) -> Option<(u64, ControlArgument)> {
        match self {
            UinputStep::EnableKeyEvents => Some((UI_SET_EVBIT, ControlArgument::Number(EV_KEY as i32))),
            UinputStep::EnableKey(key) => Some(
                (UI_SET_KEYBIT, ControlArgument::Number(key.code_spec() as i32)),
            ),
            UinputStep::Setup => Some((UI_DEV_SETUP, ControlArgument::Description)),
            UinputStep::Create => Some((UI_DEV_CREATE, ControlArgument::Nothing)),
            UinputStep::Destroy => Some((UI_DEV_DESTROY, ControlArgument::Nothing)),
            _ => None,
        }
    }

    pub fn control_call(&self) -> (call: Option<(u64, ControlArgument)>)
        ensures
            call == self.control_call_spec(),
    {
        match self {
            UinputStep::EnableKeyEvents => Some((UI_SET_EVBIT, ControlArgument::Number(EV_KEY as i32))),
            UinputStep::EnableKey(key) => Some(
                (UI_SET_KEYBIT, ControlArgument::Number(key.code() as i32)),
            ),
            UinputStep::Setup => Some((UI_DEV_SETUP, ControlArgument::Description)),
            UinputStep::Create => Some((UI_DEV_CREATE, ControlArgument::Nothing)),
            UinputStep::Destroy => Some((UI_DEV_DESTROY, ControlArgument::Nothing)),
            _ => None,
        }
    }
}

impl Step for UinputStep {
    open spec fn failure_spec(self, detail: Seq<char>) -> Option<PasteErrorView> {
        match self {
            UinputStep::Open => Some(
                PasteErrorView {
                    kind: ErrorKind::PermissionDenied,
                    message: "Failed to open /dev/uinput: "@ + detail,
                },
            ),
            UinputStep::EnableKeyEvents => Some(
                PasteErrorView {
                    kind: ErrorKind::ProtocolUnsupported,
                    message: "Failed to set EV_KEY"@,
                },
            ),
            UinputStep::EnableKey(PasteKey::LeftCtrl) => Some(
                PasteErrorView {
                    kind: ErrorKind::ProtocolUnsupported,
                    message: "Failed to set KEY_LEFTCTRL"@,
                },
            ),
            UinputStep::EnableKey(PasteKey::V) => Some(
                PasteErrorView {
                    kind: ErrorKind::ProtocolUnsupported,
                    message: "Failed to set KEY_V"@,
                },
            ),
            UinputStep::Setup => Some(
                PasteErrorView {
                    kind: ErrorKind::ProtocolUnsupported,
                    message: "Failed to setup uinput device"@,
                },
            ),
            UinputStep::Create => Some(
                PasteErrorView {
                    kind: ErrorKind::ProtocolUnsupported,
                    message: "Failed to create uinput device"@,
                },
            ),
            UinputStep::Write(_) | UinputStep::Flush => Some(
                PasteErrorView { kind: ErrorKind::ConnectionFailed, message: detail },
            ),
            UinputStep::Sleep { .. } | UinputStep::Destroy => None,
        }
    }

    fn failure(&self, detail: &str) -> (r: Option<PasteError>) {
        match self {
            UinputStep::Open => Some(
                PasteError::prefixed(ErrorKind::PermissionDenied, "Failed to open /dev/uinput: ", detail),
            ),
            UinputStep::EnableKeyEvents => Some(
                PasteError::fixed(ErrorKind::ProtocolUnsupported, "Failed to set EV_KEY"),
            ),
            UinputStep::EnableKey(PasteKey::LeftCtrl) => Some(
                PasteError::fixed(ErrorKind::ProtocolUnsupported, "Failed to set KEY_LEFTCTRL"),
            ),
            UinputStep::EnableKey(PasteKey::V) => Some(
                PasteError::fixed(ErrorKind::ProtocolUnsupported, "Failed to set KEY_V"),
            ),
            UinputStep::Setup => Some(
                PasteError::fixed(ErrorKind::ProtocolUnsupported, "Failed to setup uinput device"),
            ),
            UinputStep::Create => Some(
                PasteError::fixed(ErrorKind::ProtocolUnsupported, "Failed to create uinput device"),
            ),
            UinputStep::Write(_) | UinputStep::Flush => Some(
                PasteError::fixed(ErrorKind::ConnectionFailed, detail),
            ),
            UinputStep::Sleep { .. } | UinputStep::Destroy => None,
        }
    }
}

/// Press or release of a key as the device sends it: the event, the report
/// that closes it, a flush, and a pause of `pause` milliseconds.
pub open spec fn keystroke_spec(key: PasteKey, pressed: bool, pause: u64) -> Seq<UinputStep> {
    seq![
        UinputStep::Write(
            InputEvent {
                kind: EV_KEY,
                code: key.code_spec(),
                value: if pressed {
                    1i32
                } else {
                    0i32
                },
            },
        ),
        UinputStep::Write(InputEvent { kind: EV_SYN, code: SYN_REPORT, value: 0 }),
        UinputStep::Flush,
        UinputStep::Sleep { millis: pause },
    ]
}

/// The whole strategy: open the node, declare key events and the two keys,
/// register and create the device, let it settle, press Ctrl, press V,
/// release V, release Ctrl, and destroy the device.
pub open spec fn uinput_script() -> Seq<UinputStep> {
    seq![
        UinputStep::Open,
        UinputStep::EnableKeyEvents,
        UinputStep::EnableKey(PasteKey::LeftCtrl),
        UinputStep::EnableKey(PasteKey::V),
        UinputStep::Setup,
        UinputStep::Create,
        UinputStep::Sleep { millis: DEVICE_SETTLE_MILLIS },
    ] + keystroke_spec(PasteKey::LeftCtrl, true, KEY_GAP_MILLIS) + keystroke_spec(
        PasteKey::V,
        true,
        KEY_GAP_MILLIS,
    ) + keystroke_spec(PasteKey::V, false, KEY_GAP_MILLIS) + keystroke_spec(
        PasteKey::LeftCtrl,
        false,
        DEVICE_SETTLE_MILLIS,
    ) + seq![UinputStep::Destroy]
}

fn push_keystroke(script: &mut Vec<UinputStep>, key: PasteKey, pressed: bool, pause: u64)
    ensures
        final(script)@ == old(script)@ + keystroke_spec(key, pressed, pause),
{
    script.push(UinputStep::Write(InputEvent::key(key, pressed)));
    script.push(UinputStep::Write(InputEvent::sync()));
    script.push(UinputStep::Flush);
    script.push(UinputStep::Sleep { millis: pause });
    assert(script@ =~= old(script)@ + keystroke_spec(key, pressed, pause));
}

/// Plans the virtual input device strategy.
pub fn simulate_paste_uinput() -> (script: Vec<UinputStep>)
    ensures
        script@ == uinput_script(),
{
    let mut script: Vec<UinputStep> = Vec::new();
    script.push(UinputStep::Open);
    script.push(UinputStep::EnableKeyEvents);
    script.push(UinputStep::EnableKey(PasteKey::LeftCtrl));
    script.push(UinputStep::EnableKey(PasteKey::V));
    script.push(UinputStep::Setup);
    script.push(UinputStep::Create);
    script.push(UinputStep::Sleep { millis: DEVICE_SETTLE_MILLIS });
    assert(script@ =~= seq![
        UinputStep::Open,
        UinputStep::EnableKeyEvents,
        UinputStep::EnableKey(PasteKey::LeftCtrl),
        UinputStep::EnableKey(PasteKey::V),
        UinputStep::Setup,
        UinputStep::Create,
        UinputStep::Sleep { millis: DEVICE_SETTLE_MILLIS },
    ]);
    push_keystroke(&mut script, PasteKey::LeftCtrl, true, KEY_GAP_MILLIS);
    push_keystroke(&mut script, PasteKey::V, true, KEY_GAP_MILLIS);
    push_keystroke(&mut script, PasteKey::V, false, KEY_GAP_MILLIS);
    push_keystroke(&mut script, PasteKey::LeftCtrl, false, DEVICE_SETTLE_MILLIS);
    script.push(UinputStep::Destroy);
    assert(script@ =~= uinput_script());
    script
}

} // verus!
