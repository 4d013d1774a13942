use vstd::prelude::*;

verus! {

/// The state of the NFP service as a whole.
#[derive(Clone, Copy, PartialEq, Eq, Debug, Structural)]
pub enum State {
    NonInitialized,
    Initialized,
}

/// The state of the (single, emulated) NFC device.
#[derive(Clone, Copy, PartialEq, Eq, Debug, Structural)]
pub enum DeviceState {
    Initialized,
    SearchingForTag,
    TagFound,
    TagRemoved,
    TagMounted,
    Unavailable,
    Finalized,
}

/// What the emulator reports about the active virtual amiibo.
#[derive(Clone, Copy, PartialEq, Eq, Debug, Structural)]
pub enum VirtualAmiiboStatus {
    Invalid,
    Connected,
    Disconnected,
}

/// Whether amiibo emulation is switched on.
#[derive(Clone, Copy, PartialEq, Eq, Debug, Structural)]
pub enum EmulationStatus {
    On,
    Off,
}

/// The controller whose npad id is reported for the single fake device.
#[derive(Clone, Copy, PartialEq, Eq, Debug, Structural)]
pub enum Controller {
    Player1,
    Handheld,
}

/// The event that a change of the device state asks to be signalled.
#[derive(Clone, Copy, PartialEq, Eq, Debug, Structural)]
pub enum DeviceEvent {
    Activate,
    Deactivate,
}

/// Why a command was refused.
#[derive(Clone, Copy, PartialEq, Eq, Debug, Structural)]
pub enum NfpError {
    /// The service or the device is not in a state that allows the command,
    /// or no valid virtual amiibo is active.
    DeviceNotFound,
    /// The application area does not exist (or, on creation, already does).
    AreaNeedsToBeCreated,
    /// A call made on behalf of the command failed with this result code.
    Outside(u32),
}

} // verus!
