use vstd::prelude::*;

use crate::types::{Controller, DeviceEvent, DeviceState, NfpError, State, VirtualAmiiboStatus};
use crate::user::{min_usize, UserView};

verus! {

/// Every transition keeps a well-formed session well-formed: a session that
/// is not initialized never reports a live device.
pub proof fn every_step_keeps_wf(
    v: UserView,
    target: DeviceState,
    access_id: u32,
    amiibo_valid: bool,
    area_exists: bool,
    status: VirtualAmiiboStatus,
)
    requires
        v.wf(),
    ensures
        v.initialize_step().0.wf(),
        v.finalize_step().0.wf(),
        v.start_detection_step().0.wf(),
        v.set_device_step(target).0.wf(),
        v.open_area_step(access_id, amiibo_valid, area_exists).0.wf(),
        v.virtual_amiibo_step(status).0.wf(),
{
}

/// On a service that is not initialized, `initialize` succeeds and every
/// other command is refused with `DeviceNotFound`, changing nothing.
pub proof fn uninitialized_refuses_all_but_initialize(
    v: UserView,
    target: DeviceState,
    access_id: u32,
    amiibo_valid: bool,
    area_exists: bool,
    area_size: Result<usize, u32>,
    buffer_size: usize,
    player1_connected: bool,
)
    requires
        v.state == State::NonInitialized,
    ensures
        v.initialize_step().1 == Ok::<(), NfpError>(()),
        v.finalize_step() == (v, Err::<(), NfpError>(NfpError::DeviceNotFound)),
        v.start_detection_step() == (v, Err::<(), NfpError>(NfpError::DeviceNotFound)),
        v.set_device_step(target) == (v, Err::<(), NfpError>(NfpError::DeviceNotFound)),
        v.open_area_step(access_id, amiibo_valid, area_exists) == (v, Err::<(), NfpError>(
            NfpError::DeviceNotFound,
        )),
        v.area_size_result(area_exists, area_size) == Err::<usize, NfpError>(
            NfpError::DeviceNotFound,
        ),
        v.area_transfer_result(area_exists, area_size, buffer_size) == Err::<usize, NfpError>(
            NfpError::DeviceNotFound,
        ),
        v.create_area_result(amiibo_valid, area_exists) == Err::<(), NfpError>(
            NfpError::DeviceNotFound,
        ),
        v.tag_info_result(amiibo_valid) == Err::<(), NfpError>(NfpError::DeviceNotFound),
        v.mounted_amiibo_result(amiibo_valid) == Err::<(), NfpError>(NfpError::DeviceNotFound),
        v.initialized_result() == Err::<(), NfpError>(NfpError::DeviceNotFound),
        v.list_devices_result(player1_connected) is Err,
{
}

/// A refused command leaves the session exactly as it was.
pub proof fn refusal_changes_nothing(
    v: UserView,
    target: DeviceState,
    access_id: u32,
    amiibo_valid: bool,
    area_exists: bool,
)
    ensures
        v.initialize_step().1 is Err ==> v.initialize_step().0 == v,
        v.finalize_step().1 is Err ==> v.finalize_step().0 == v,
        v.start_detection_step().1 is Err ==> v.start_detection_step().0 == v,
        v.set_device_step(target).1 is Err ==> v.set_device_step(target).0 == v,
        v.open_area_step(access_id, amiibo_valid, area_exists).1 is Err ==> v.open_area_step(
            access_id,
            amiibo_valid,
            area_exists,
        ).0 == v,
{
}

/// `finalize` after a successful `initialize` succeeds and leaves a
/// finalized session that can be initialized again; the program, the opened
/// area and the thread flag are untouched by both.
pub proof fn finalize_after_initialize(v: UserView)
    requires
        v.state == State::NonInitialized,
    ensures
        v.finalize_step().1 is Err,
        v.initialize_step().0.finalize_step().1 == Ok::<(), NfpError>(()),
        v.initialize_step().0.finalize_step().0 == (UserView {
            state: State::NonInitialized,
            device_state: DeviceState::Finalized,
            ..v
        }),
        v.initialize_step().0.finalize_step().0.initialize_step().1 == Ok::<(), NfpError>(()),
{
}

/// While searching, a connected amiibo is found and the activate event is
/// signalled; its disconnection then returns the device to searching and
/// signals the deactivate event. The two reports undo each other.
pub proof fn connect_then_disconnect(v: UserView)
    requires
        v.device_state == DeviceState::SearchingForTag,
    ensures
        v.virtual_amiibo_step(VirtualAmiiboStatus::Connected) == (
            v.with_device_state(DeviceState::TagFound),
            Some(DeviceEvent::Activate),
        ),
        v.virtual_amiibo_step(VirtualAmiiboStatus::Connected).0.virtual_amiibo_step(
            VirtualAmiiboStatus::Disconnected,
        ) == (v, Some(DeviceEvent::Deactivate)),
{
}

/// A report of the emulator changes at most the device state, signals an
/// event exactly when it changes it, and never acts on a session that is
/// not initialized.
pub proof fn amiibo_report_touches_only_device(v: UserView, status: VirtualAmiiboStatus)
    requires
        v.wf(),
    ensures
        v.virtual_amiibo_step(status).0 == v.with_device_state(
            v.virtual_amiibo_step(status).0.device_state,
        ),
        (v.virtual_amiibo_step(status).1 is Some) <==> (v.virtual_amiibo_step(status).0
            != v),
        v.state == State::NonInitialized ==> v.virtual_amiibo_step(status) == (v, None::<
            DeviceEvent,
        >),
{
}

/// A read or write of the opened area never moves more bytes than the area
/// holds nor more than the client's buffer holds, and moves all of the one
/// that is smaller.
pub proof fn transfer_is_bounded(
    v: UserView,
    area_exists: bool,
    area_size: usize,
    buffer_size: usize,
)
    ensures
        v.area_transfer_result(area_exists, Ok(area_size), buffer_size) matches Ok(n) ==> n
            <= area_size && n <= buffer_size && (n == area_size || n == buffer_size),
        v.is_mounted() && area_exists ==> v.area_transfer_result(
            area_exists,
            Ok(area_size),
            buffer_size,
        ) == Ok::<usize, NfpError>(min_usize(area_size, buffer_size)),
{
}

} // verus!

verus! {

/// A `Connected` report acts only on a device that is searching for a tag:
/// it then finds the tag and asks for the activate event. On any other
/// device state (a mounted tag included) it changes nothing and signals
/// nothing.
pub proof fn connected_report_acts_only_while_searching(v: UserView)
    ensures
        v.device_state == DeviceState::SearchingForTag ==> v.virtual_amiibo_step(
            VirtualAmiiboStatus::Connected,
        ) == (UserView { device_state: DeviceState::TagFound, ..v }, Some(DeviceEvent::Activate)),
        v.device_state != DeviceState::SearchingForTag ==> v.virtual_amiibo_step(
            VirtualAmiiboStatus::Connected,
        ) == (v, None::<DeviceEvent>),
{
}

/// A `Disconnected` report acts only on a found or mounted tag: the device
/// goes back to searching and the deactivate event is asked for. On any
/// other device state it changes nothing and signals nothing. An `Invalid`
/// report never changes anything.
pub proof fn disconnected_report_acts_only_on_a_tag(v: UserView)
    ensures
        (v.device_state == DeviceState::TagFound || v.device_state == DeviceState::TagMounted)
            ==> v.virtual_amiibo_step(VirtualAmiiboStatus::Disconnected) == (
            UserView { device_state: DeviceState::SearchingForTag, ..v },
            Some(DeviceEvent::Deactivate),
        ),
        !(v.device_state == DeviceState::TagFound || v.device_state == DeviceState::TagMounted)
            ==> v.virtual_amiibo_step(VirtualAmiiboStatus::Disconnected) == (v, None::<DeviceEvent>),
        v.virtual_amiibo_step(VirtualAmiiboStatus::Invalid) == (v, None::<DeviceEvent>),
{
}

/// `initialize` succeeds exactly on a service that is not initialized, and
/// then leaves it initialized with an initialized device, whatever the
/// device state before; everything else is kept.
pub proof fn initialize_succeeds_exactly_when_uninitialized(v: UserView)
    ensures
        v.initialize_step().1 is Ok <==> v.state == State::NonInitialized,
        v.state == State::NonInitialized ==> v.initialize_step().0 == (UserView {
            state: State::Initialized,
            device_state: DeviceState::Initialized,
            ..v
        }),
{
}

/// `finalize` succeeds on every initialized service, whatever the device
/// state and whichever area is open, and leaves the service not initialized
/// and the device finalized; everything else is kept.
pub proof fn finalize_succeeds_whenever_initialized(v: UserView)
    ensures
        v.finalize_step().1 is Ok <==> v.state == State::Initialized,
        v.state == State::Initialized ==> v.finalize_step().0 == (UserView {
            state: State::NonInitialized,
            device_state: DeviceState::Finalized,
            ..v
        }),
{
}

/// `start_detection` succeeds exactly on an initialized service whose device
/// is initialized or had its tag removed, and then moves the device to
/// searching, keeping everything else (the opened area included).
pub proof fn start_detection_from_idle_device(v: UserView)
    ensures
        v.start_detection_step().1 is Ok <==> (v.state == State::Initialized && (v.device_state
            == DeviceState::Initialized || v.device_state == DeviceState::TagRemoved)),
        v.start_detection_step().1 is Ok ==> v.start_detection_step().0 == (UserView {
            device_state: DeviceState::SearchingForTag,
            ..v
        }),
{
}

/// `stop_detection`, `mount` and `unmount` succeed on every initialized
/// service, whatever the device state, and set the device to initialized,
/// mounted and found respectively.
pub proof fn device_commands_need_only_initialization(v: UserView)
    ensures
        v.set_device_step(DeviceState::Initialized).1 is Ok <==> v.state == State::Initialized,
        v.set_device_step(DeviceState::TagMounted).1 is Ok <==> v.state == State::Initialized,
        v.set_device_step(DeviceState::TagFound).1 is Ok <==> v.state == State::Initialized,
        v.state == State::Initialized ==> v.set_device_step(DeviceState::Initialized).0 == (
        UserView { device_state: DeviceState::Initialized, ..v }),
        v.state == State::Initialized ==> v.set_device_step(DeviceState::TagMounted).0 == (
        UserView { device_state: DeviceState::TagMounted, ..v }),
        v.state == State::Initialized ==> v.set_device_step(DeviceState::TagFound).0 == (
        UserView { device_state: DeviceState::TagFound, ..v }),
{
}

/// The tag info is handed out exactly when the service is initialized, the
/// tag is found or mounted and the amiibo is valid; the register, common
/// and model info exactly when the service is initialized, the tag is
/// mounted and the amiibo is valid. A refusal is always `DeviceNotFound`.
pub proof fn info_queries_allowed_exactly(v: UserView, amiibo_valid: bool)
    ensures
        v.tag_info_result(amiibo_valid) is Ok <==> (v.state == State::Initialized && (
        v.device_state == DeviceState::TagFound || v.device_state == DeviceState::TagMounted)
            && amiibo_valid),
        v.mounted_amiibo_result(amiibo_valid) is Ok <==> (v.state == State::Initialized
            && v.device_state == DeviceState::TagMounted && amiibo_valid),
        v.tag_info_result(amiibo_valid) is Err ==> v.tag_info_result(amiibo_valid) == Err::<
            (),
            NfpError,
        >(NfpError::DeviceNotFound),
        v.mounted_amiibo_result(amiibo_valid) is Err ==> v.mounted_amiibo_result(amiibo_valid)
            == Err::<(), NfpError>(NfpError::DeviceNotFound),
{
}

/// With an initialized service, a mounted tag, a valid amiibo and an
/// existing area, `open_application_area(id)` succeeds and opens area `id`,
/// whichever area was open before, changing nothing else. Without an
/// existing area (but otherwise allowed) it answers
/// `AreaNeedsToBeCreated`.
pub proof fn open_area_replaces_opened_area(
    v: UserView,
    access_id: u32,
    amiibo_valid: bool,
    area_exists: bool,
)
    ensures
        (v.state == State::Initialized && v.device_state == DeviceState::TagMounted
            && amiibo_valid && area_exists) ==> v.open_area_step(access_id, amiibo_valid, area_exists)
            == (UserView { opened_area: Some(access_id), ..v }, Ok::<(), NfpError>(())),
        (v.state == State::Initialized && v.device_state == DeviceState::TagMounted
            && amiibo_valid && !area_exists) ==> v.open_area_step(
            access_id,
            amiibo_valid,
            area_exists,
        ).1 == Err::<(), NfpError>(NfpError::AreaNeedsToBeCreated),
        !(v.state == State::Initialized && v.device_state == DeviceState::TagMounted
            && amiibo_valid) ==> v.open_area_step(access_id, amiibo_valid, area_exists).1 == Err::<
            (),
            NfpError,
        >(NfpError::DeviceNotFound),
{
}

/// Which area is open never changes the answer of any command, nor what a
/// command does to the rest of the session: the opened area is only ever
/// written by `open_application_area`.
pub proof fn opened_area_never_decides(
    v: UserView,
    other: Option<u32>,
    target: DeviceState,
    access_id: u32,
    amiibo_valid: bool,
    area_exists: bool,
    area_size: Result<usize, u32>,
    buffer_size: usize,
    player1_connected: bool,
    status: VirtualAmiiboStatus,
)
    ensures
        ({
            let w = UserView { opened_area: other, ..v };
            &&& w.initialize_step().1 == v.initialize_step().1
            &&& w.finalize_step().1 == v.finalize_step().1
            &&& w.start_detection_step().1 == v.start_detection_step().1
            &&& w.set_device_step(target).1 == v.set_device_step(target).1
            &&& w.open_area_step(access_id, amiibo_valid, area_exists).1 == v.open_area_step(
                access_id,
                amiibo_valid,
                area_exists,
            ).1
            &&& w.area_size_result(area_exists, area_size) == v.area_size_result(
                area_exists,
                area_size,
            )
            &&& w.area_transfer_result(area_exists, area_size, buffer_size)
                == v.area_transfer_result(area_exists, area_size, buffer_size)
            &&& w.create_area_result(amiibo_valid, area_exists) == v.create_area_result(
                amiibo_valid,
                area_exists,
            )
            &&& w.tag_info_result(amiibo_valid) == v.tag_info_result(amiibo_valid)
            &&& w.mounted_amiibo_result(amiibo_valid) == v.mounted_amiibo_result(amiibo_valid)
            &&& w.initialized_result() == v.initialized_result()
            &&& w.list_devices_result(player1_connected) == v.list_devices_result(
                player1_connected,
            )
            &&& w.virtual_amiibo_step(status).1 == v.virtual_amiibo_step(status).1
            &&& w.virtual_amiibo_step(status).0.opened_area == other
            &&& w.initialize_step().0.opened_area == other
            &&& w.finalize_step().0.opened_area == other
            &&& w.start_detection_step().0.opened_area == other
            &&& w.set_device_step(target).0.opened_area == other
        }),
{
}

} // verus!

verus! {

/// The opened area's size is reported exactly when the service is
/// initialized, the tag mounted, the area exists and its size could be
/// read; otherwise the first failing of these decides the error. A read or
/// write moves the smaller of that size and the client's buffer.
pub proof fn area_size_answers(
    v: UserView,
    area_exists: bool,
    area_size: Result<usize, u32>,
    buffer_size: usize,
)
    ensures
        !(v.state == State::Initialized && v.device_state == DeviceState::TagMounted)
            ==> v.area_size_result(area_exists, area_size) == Err::<usize, NfpError>(
            NfpError::DeviceNotFound,
        ),
        (v.state == State::Initialized && v.device_state == DeviceState::TagMounted
            && !area_exists) ==> v.area_size_result(area_exists, area_size) == Err::<
            usize,
            NfpError,
        >(NfpError::AreaNeedsToBeCreated),
        (v.state == State::Initialized && v.device_state == DeviceState::TagMounted
            && area_exists) ==> v.area_size_result(area_exists, area_size) == match area_size {
            Ok(n) => Ok::<usize, NfpError>(n),
            Err(code) => Err(NfpError::Outside(code)),
        },
        v.area_transfer_result(area_exists, area_size, buffer_size) matches Ok(n) ==> (
        area_size matches Ok(size) && n <= size && n <= buffer_size && (n == size || n
            == buffer_size)),
        v.area_transfer_result(area_exists, area_size, buffer_size) is Err
            <==> v.area_size_result(area_exists, area_size) is Err,
        v.area_transfer_result(area_exists, area_size, buffer_size) is Err ==> v.area_transfer_result(
            area_exists,
            area_size,
            buffer_size,
        ) == match v.area_size_result(area_exists, area_size) {
            Ok(_) => Err(NfpError::DeviceNotFound),
            Err(e) => Err::<usize, NfpError>(e),
        },
{
}

/// An area may be created exactly on an initialized service with a mounted
/// tag and a valid amiibo whose area does not exist yet; recreating it
/// skips the existence test. Commands that only need an initialized
/// service succeed exactly on one. The device list holds one device, named
/// by player 1 when connected and by the handheld otherwise.
pub proof fn creation_and_plain_commands(v: UserView, amiibo_valid: bool, area_exists: bool, player1_connected: bool)
    ensures
        v.create_area_result(amiibo_valid, area_exists) is Ok <==> (v.state == State::Initialized
            && v.device_state == DeviceState::TagMounted && amiibo_valid && !area_exists),
        (v.state == State::Initialized && v.device_state == DeviceState::TagMounted
            && amiibo_valid && area_exists) ==> v.create_area_result(amiibo_valid, area_exists)
            == Err::<(), NfpError>(NfpError::AreaNeedsToBeCreated),
        !(v.state == State::Initialized && v.device_state == DeviceState::TagMounted
            && amiibo_valid) ==> v.create_area_result(amiibo_valid, area_exists) == Err::<
            (),
            NfpError,
        >(NfpError::DeviceNotFound),
        v.initialized_result() is Ok <==> v.state == State::Initialized,
        v.initialized_result() is Err ==> v.initialized_result() == Err::<(), NfpError>(
            NfpError::DeviceNotFound,
        ),
        v.list_devices_result(player1_connected) is Ok <==> v.state == State::Initialized,
        v.list_devices_result(player1_connected) matches Ok((c, count)) ==> count == 1 && (c
            == Controller::Player1 <==> player1_connected) && (c == Controller::Handheld
            <==> !player1_connected),
{
}

} // verus!
