use vstd::prelude::*;

use crate::types::{Controller, DeviceEvent, DeviceState, NfpError, State, VirtualAmiiboStatus};

verus! {

/// The abstract state of one NFP user session.
pub struct UserView {
    /// The program on whose behalf the session was opened.
    pub application_id: u64,
    pub state: State,
    pub device_state: DeviceState,
    /// The access id of the application area opened last, if any.
    pub opened_area: Option<u32>,
    /// Whether the emulation thread was asked to stop.
    pub end_requested: bool,
}

/// One NFP user session: the service state, the device state and the
/// application area that the client has opened.
pub struct User {
    application_id: u64,
    state: State,
    device_state: DeviceState,
    opened_area: Option<u32>,
    end_requested: bool,
}

impl View for User {
    type V = UserView;

    closed spec fn view(&self) -> UserView {
        UserView {
            application_id: self.application_id,
            state: self.state,
            device_state: self.device_state,
            opened_area: self.opened_area,
            end_requested: self.end_requested,
        }
    }
}

impl UserView {
    /// A session that is not initialized reports no live device: its device
    /// is either still unavailable or finalized.
    pub open spec fn wf(self) -> bool {
        self.state == State::NonInitialized ==> (self.device_state == DeviceState::Unavailable
            || self.device_state == DeviceState::Finalized)
    }

    pub open spec fn is_initialized(self) -> bool {
        self.state == State::Initialized
    }

    /// Initialized, with a tag mounted.
    pub open spec fn is_mounted(self) -> bool {
        self.is_initialized() && self.device_state == DeviceState::TagMounted
    }

    /// The answer of a command that only needs an initialized service.
    pub open spec fn initialized_result(self) -> Result<(), NfpError> {
        if self.is_initialized() {
            Ok(())
        } else {
            Err(NfpError::DeviceNotFound)
        }
    }

    /// The answer of a command that needs a mounted tag and a valid amiibo.
    pub open spec fn mounted_amiibo_result(self, amiibo_valid: bool) -> Result<(), NfpError> {
        if self.is_mounted() && amiibo_valid {
            Ok(())
        } else {
            Err(NfpError::DeviceNotFound)
        }
    }

    pub open spec fn with_device_state(self, device_state: DeviceState) -> UserView {
        UserView { device_state, ..self }
    }

    /// `initialize`: allowed only on a service that is not initialized.
    pub open spec fn initialize_step(self) -> (UserView, Result<(), NfpError>) {
        if self.state == State::NonInitialized {
            (
                UserView {
                    state: State::Initialized,
                    device_state: DeviceState::Initialized,
                    ..self
                },
                Ok(()),
            )
        } else {
            (self, Err(NfpError::DeviceNotFound))
        }
    }

    /// `finalize`: allowed only on an initialized service.
    pub open spec fn finalize_step(self) -> (UserView, Result<(), NfpError>) {
        if self.is_initialized() {
            (
                UserView {
                    state: State::NonInitialized,
                    device_state: DeviceState::Finalized,
                    ..self
                },
                Ok(()),
            )
        } else {
            (self, Err(NfpError::DeviceNotFound))
        }
    }

    /// `start_detection`: from an initialized device or one whose tag was removed.
    pub open spec fn start_detection_step(self) -> (UserView, Result<(), NfpError>) {
        if self.is_initialized() && (self.device_state == DeviceState::Initialized
            || self.device_state == DeviceState::TagRemoved) {
            (self.with_device_state(DeviceState::SearchingForTag), Ok(()))
        } else {
            (self, Err(NfpError::DeviceNotFound))
        }
    }

    /// A command that, on an initialized service, moves the device to `target`.
    pub open spec fn set_device_step(self, target: DeviceState) -> (
        UserView,
        Result<(), NfpError>,
    ) {
        if self.is_initialized() {
            (self.with_device_state(target), Ok(()))
        } else {
            (self, Err(NfpError::DeviceNotFound))
        }
    }

    /// `open_application_area`: needs a mounted tag, a valid amiibo and an
    /// existing area; then the area becomes the opened one.
    pub open spec fn open_area_step(self, access_id: u32, amiibo_valid: bool, area_exists: bool) -> (
        UserView,
        Result<(), NfpError>,
    ) {
        if !(self.is_mounted() && amiibo_valid) {
            (self, Err(NfpError::DeviceNotFound))
        } else if !area_exists {
            (self, Err(NfpError::AreaNeedsToBeCreated))
        } else {
            (UserView { opened_area: Some(access_id), ..self }, Ok(()))
        }
    }

    /// The size of the opened area, as the commands that use it report it.
    pub open spec fn area_size_result(self, area_exists: bool, area_size: Result<usize, u32>) -> Result<
        usize,
        NfpError,
    > {
        if !self.is_mounted() {
            Err(NfpError::DeviceNotFound)
        } else if !area_exists {
            Err(NfpError::AreaNeedsToBeCreated)
        } else {
            match area_size {
                Ok(n) => Ok(n),
                Err(code) => Err(NfpError::Outside(code)),
            }
        }
    }

    /// How many bytes a read or write of the opened area moves: the area's
    /// size, cut to the client's buffer.
    pub open spec fn area_transfer_result(
        self,
        area_exists: bool,
        area_size: Result<usize, u32>,
        buffer_size: usize,
    ) -> Result<usize, NfpError> {
        match self.area_size_result(area_exists, area_size) {
            Ok(n) => Ok(min_usize(n, buffer_size)),
            Err(e) => Err(e),
        }
    }

    /// `create_application_area`: needs a mounted tag, a valid amiibo and an
    /// area that does not exist yet.
    pub open spec fn create_area_result(self, amiibo_valid: bool, area_exists: bool) -> Result<
        (),
        NfpError,
    > {
        if !(self.is_mounted() && amiibo_valid) {
            Err(NfpError::DeviceNotFound)
        } else if area_exists {
            Err(NfpError::AreaNeedsToBeCreated)
        } else {
            Ok(())
        }
    }

    /// `get_tag_info`: needs a found or mounted tag and a valid amiibo.
    pub open spec fn tag_info_result(self, amiibo_valid: bool) -> Result<(), NfpError> {
        if self.is_initialized() && (self.device_state == DeviceState::TagFound
            || self.device_state == DeviceState::TagMounted) && amiibo_valid {
            Ok(())
        } else {
            Err(NfpError::DeviceNotFound)
        }
    }

    /// `list_devices`: one device, named by the npad id of this controller.
    pub open spec fn list_devices_result(self, player1_connected: bool) -> Result<
        (Controller, u32),
        NfpError,
    > {
        if !self.is_initialized() {
            Err(NfpError::DeviceNotFound)
        } else if player1_connected {
            Ok((Controller::Player1, 1))
        } else {
            Ok((Controller::Handheld, 1))
        }
    }

    /// What a status report of the emulator does to the device, and the
    /// event it asks to signal.
    pub open spec fn virtual_amiibo_step(self, status: VirtualAmiiboStatus) -> (
        UserView,
        Option<DeviceEvent>,
    ) {
        match status {
            VirtualAmiiboStatus::Connected => {
                if self.device_state == DeviceState::SearchingForTag {
                    (self.with_device_state(DeviceState::TagFound), Some(DeviceEvent::Activate))
                } else {
                    (self, None)
                }
            },
            VirtualAmiiboStatus::Disconnected => {
                if self.device_state == DeviceState::TagFound || self.device_state
                    == DeviceState::TagMounted {
                    (
                        self.with_device_state(DeviceState::SearchingForTag),
                        Some(DeviceEvent::Deactivate),
                    )
                } else {
                    (self, None)
                }
            },
            VirtualAmiiboStatus::Invalid => (self, None),
        }
    }
}

pub open spec fn min_usize(a: usize, b: usize) -> usize {
    if a <= b {
        a
    } else {
        b
    }
}


fn min_size(a: usize, b: usize) -> (r: usize)
    ensures
        r == min_usize(a, b),
{
    if a <= b {
        a
    } else {
        b
    }
}

impl User {
    /// A fresh session for `application_id`: not initialized, no device,
    /// no area opened.
    pub fn new(application_id: u64) -> (user: User)
        ensures
            user@ == (UserView {
                application_id,
                state: State::NonInitialized,
                device_state: DeviceState::Unavailable,
                opened_area: None,
                end_requested: false,
            }),
            user@.wf(),
    {
        User {
            application_id,
            state: State::NonInitialized,
            device_state: DeviceState::Unavailable,
            opened_area: None,
            end_requested: false,
        }
    }

    pub fn application_id(&self) -> (id: u64)
        ensures
            id == self@.application_id,
    {
        self.application_id
    }

    pub fn is_state(&self, state: State) -> (b: bool)
        ensures
            b == (self@.state == state),
    {
        self.state == state
    }

    pub fn is_device_state(&self, device_state: DeviceState) -> (b: bool)
        ensures
            b == (self@.device_state == device_state),
    {
        self.device_state == device_state
    }

    fn require_initialized(&self) -> (r: Result<(), NfpError>)
        ensures
            r == self@.initialized_result(),
    {
        if self.is_state(State::Initialized) {
            Ok(())
        } else {
            Err(NfpError::DeviceNotFound)
        }
    }

    fn require_mounted_amiibo(&self, amiibo_valid: bool) -> (r: Result<(), NfpError>)
        ensures
            r == self@.mounted_amiibo_result(amiibo_valid),
    {
        if self.is_state(State::Initialized) && self.is_device_state(DeviceState::TagMounted)
            && amiibo_valid {
            Ok(())
        } else {
            Err(NfpError::DeviceNotFound)
        }
    }

    /// Applies a status report of the emulator to the device: a connected
    /// amiibo is found while searching, a disconnected one takes a found or
    /// mounted tag away. Returns the event to signal, if any.
    pub fn handle_virtual_amiibo_status(&mut self, status: VirtualAmiiboStatus) -> (event: Option<
        DeviceEvent,
    >)
        ensures
            (final(self)@, event) == old(self)@.virtual_amiibo_step(status),
            old(self)@.wf() ==> final(self)@.wf(),
    {
        match status {
            VirtualAmiiboStatus::Connected => {
                if self.is_device_state(DeviceState::SearchingForTag) {
                    self.device_state = DeviceState::TagFound;
                    Some(DeviceEvent::Activate)
                } else {
                    None
                }
            },
            VirtualAmiiboStatus::Disconnected => {
                if self.is_device_state(DeviceState::TagFound) || self.is_device_state(
                    DeviceState::TagMounted,
                ) {
                    self.device_state = DeviceState::SearchingForTag;
                    Some(DeviceEvent::Deactivate)
                } else {
                    None
                }
            },
            VirtualAmiiboStatus::Invalid => None,
        }
    }

    /// Asks the emulation thread to stop.
    pub fn request_thread_end(&mut self)
        ensures
            final(self)@ == (UserView { end_requested: true, ..old(self)@ }),
    {
        self.end_requested = true;
    }

    /// Whether the emulation thread should stop.
    pub fn thread_should_end(&self) -> (b: bool)
        ensures
            b == self@.end_requested,
    {
        self.end_requested
    }

    /// Initializes the service and the device.
    pub fn initialize(&mut self) -> (r: Result<(), NfpError>)
        ensures
            (final(self)@, r) == old(self)@.initialize_step(),
            old(self)@.wf() ==> final(self)@.wf(),
    {
        if !self.is_state(State::NonInitialized) {
            return Err(NfpError::DeviceNotFound);
        }
        self.state = State::Initialized;
        self.device_state = DeviceState::Initialized;
        Ok(())
    }

    /// Finalizes the service and the device.
    pub fn finalize(&mut self) -> (r: Result<(), NfpError>)
        ensures
            (final(self)@, r) == old(self)@.finalize_step(),
            old(self)@.wf() ==> final(self)@.wf(),
    {
        self.require_initialized()?;
        self.state = State::NonInitialized;
        self.device_state = DeviceState::Finalized;
        Ok(())
    }

    /// The devices that the service reports: a single one, named by the npad
    /// id of player 1 when that controller is connected and of the handheld
    /// otherwise. Returns the controller and the number of devices.
    pub fn list_devices(&self, player1_connected: bool) -> (r: Result<(Controller, u32), NfpError>)
        ensures
            r == self@.list_devices_result(player1_connected),
    {
        self.require_initialized()?;
        if player1_connected {
            Ok((Controller::Player1, 1))
        } else {
            Ok((Controller::Handheld, 1))
        }
    }

    /// Starts searching for a tag.
    pub fn start_detection(&mut self) -> (r: Result<(), NfpError>)
        ensures
            (final(self)@, r) == old(self)@.start_detection_step(),
            old(self)@.wf() ==> final(self)@.wf(),
    {
        self.require_initialized()?;
        if !(self.is_device_state(DeviceState::Initialized) || self.is_device_state(
            DeviceState::TagRemoved,
        )) {
            return Err(NfpError::DeviceNotFound);
        }
        self.device_state = DeviceState::SearchingForTag;
        Ok(())
    }

    /// Stops searching for a tag.
    pub fn stop_detection(&mut self) -> (r: Result<(), NfpError>)
        ensures
            (final(self)@, r) == old(self)@.set_device_step(DeviceState::Initialized),
            old(self)@.wf() ==> final(self)@.wf(),
    {
        self.require_initialized()?;
        self.device_state = DeviceState::Initialized;
        Ok(())
    }

    /// Mounts the tag.
    pub fn mount(&mut self) -> (r: Result<(), NfpError>)
        ensures
            (final(self)@, r) == old(self)@.set_device_step(DeviceState::TagMounted),
            old(self)@.wf() ==> final(self)@.wf(),
    {
        self.require_initialized()?;
        self.device_state = DeviceState::TagMounted;
        Ok(())
    }

    /// Unmounts the tag, which stays found.
    pub fn unmount(&mut self) -> (r: Result<(), NfpError>)
        ensures
            (final(self)@, r) == old(self)@.set_device_step(DeviceState::TagFound),
            old(self)@.wf() ==> final(self)@.wf(),
    {
        self.require_initialized()?;
        self.device_state = DeviceState::TagFound;
        Ok(())
    }

    /// Opens the application area `access_id` of the active amiibo, given
    /// whether that amiibo is valid and whether the area exists.
    pub fn open_application_area(&mut self, access_id: u32, amiibo_valid: bool, area_exists: bool) -> (r:
        Result<(), NfpError>)
        ensures
            (final(self)@, r) == old(self)@.open_area_step(access_id, amiibo_valid, area_exists),
            old(self)@.wf() ==> final(self)@.wf(),
    {
        self.require_mounted_amiibo(amiibo_valid)?;
        if !area_exists {
            return Err(NfpError::AreaNeedsToBeCreated);
        }
        self.opened_area = Some(access_id);
        Ok(())
    }

    fn opened_area_size(&self, area_exists: bool, area_size: Result<usize, u32>) -> (r: Result<
        usize,
        NfpError,
    >)
        ensures
            r == self@.area_size_result(area_exists, area_size),
    {
        if !(self.is_state(State::Initialized) && self.is_device_state(DeviceState::TagMounted)) {
            return Err(NfpError::DeviceNotFound);
        }
        if !area_exists {
            return Err(NfpError::AreaNeedsToBeCreated);
        }
        match area_size {
            Ok(n) => Ok(n),
            Err(code) => Err(NfpError::Outside(code)),
        }
    }

    /// How many bytes of the opened area to read into a buffer of
    /// `buffer_size` bytes, given whether the area exists and its size.
    pub fn get_application_area(
        &self,
        area_exists: bool,
        area_size: Result<usize, u32>,
        buffer_size: usize,
    ) -> (r: Result<usize, NfpError>)
        ensures
            r == self@.area_transfer_result(area_exists, area_size, buffer_size),
    {
        let n = self.opened_area_size(area_exists, area_size)?;
        Ok(min_size(n, buffer_size))
    }

    /// How many bytes of `data_size` bytes of data to write into the opened
    /// area, given whether the area exists and its size.
    pub fn set_application_area(
        &self,
        area_exists: bool,
        area_size: Result<usize, u32>,
        data_size: usize,
    ) -> (r: Result<usize, NfpError>)
        ensures
            r == self@.area_transfer_result(area_exists, area_size, data_size),
    {
        let n = self.opened_area_size(area_exists, area_size)?;
        Ok(min_size(n, data_size))
    }

    /// The size of the opened area, given whether it exists and its size.
    pub fn get_application_area_size(&self, area_exists: bool, area_size: Result<usize, u32>) -> (r:
        Result<usize, NfpError>)
        ensures
            r == self@.area_size_result(area_exists, area_size),
    {
        self.opened_area_size(area_exists, area_size)
    }

    pub fn flush(&self) -> (r: Result<(), NfpError>)
        ensures
            r == self@.initialized_result(),
    {
        self.require_initialized()
    }

    pub fn restore(&self) -> (r: Result<(), NfpError>)
        ensures
            r == self@.initialized_result(),
    {
        self.require_initialized()
    }

    /// Whether an application area may be created on the active amiibo,
    /// given whether that amiibo is valid and whether the area exists.
    pub fn create_application_area(&self, amiibo_valid: bool, area_exists: bool) -> (r: Result<
        (),
        NfpError,
    >)
        ensures
            r == self@.create_area_result(amiibo_valid, area_exists),
    {
        self.require_mounted_amiibo(amiibo_valid)?;
        if area_exists {
            return Err(NfpError::AreaNeedsToBeCreated);
        }
        Ok(())
    }

    /// Whether an application area may be (re)created on the active amiibo,
    /// whether or not it exists.
    pub fn recreate_application_area(&self, amiibo_valid: bool) -> (r: Result<(), NfpError>)
        ensures
            r == self@.mounted_amiibo_result(amiibo_valid),
    {
        self.require_mounted_amiibo(amiibo_valid)
    }

    /// Whether the tag info of the active amiibo may be handed out.
    pub fn get_tag_info(&self, amiibo_valid: bool) -> (r: Result<(), NfpError>)
        ensures
            r == self@.tag_info_result(amiibo_valid),
    {
        self.require_initialized()?;
        if !(self.is_device_state(DeviceState::TagFound) || self.is_device_state(
            DeviceState::TagMounted,
        )) {
            return Err(NfpError::DeviceNotFound);
        }
        if !amiibo_valid {
            return Err(NfpError::DeviceNotFound);
        }
        Ok(())
    }

    /// Whether the register info of the active amiibo may be handed out.
    pub fn get_register_info(&self, amiibo_valid: bool) -> (r: Result<(), NfpError>)
        ensures
            r == self@.mounted_amiibo_result(amiibo_valid),
    {
        self.require_mounted_amiibo(amiibo_valid)
    }

    /// Whether the common info of the active amiibo may be handed out.
    pub fn get_common_info(&self, amiibo_valid: bool) -> (r: Result<(), NfpError>)
        ensures
            r == self@.mounted_amiibo_result(amiibo_valid),
    {
        self.require_mounted_amiibo(amiibo_valid)
    }

    /// Whether the model info of the active amiibo may be handed out.
    pub fn get_model_info(&self, amiibo_valid: bool) -> (r: Result<(), NfpError>)
        ensures
            r == self@.mounted_amiibo_result(amiibo_valid),
    {
        self.require_mounted_amiibo(amiibo_valid)
    }

    /// Whether the activate event may be handed out.
    pub fn attach_activate_event(&self) -> (r: Result<(), NfpError>)
        ensures
            r == self@.initialized_result(),
    {
        self.require_initialized()
    }

    /// Whether the deactivate event may be handed out.
    pub fn attach_deactivate_event(&self) -> (r: Result<(), NfpError>)
        ensures
            r == self@.initialized_result(),
    {
        self.require_initialized()
    }

    /// Whether the availability change event may be handed out.
    pub fn attach_availability_change_event(&self) -> (r: Result<(), NfpError>)
        ensures
            r == self@.initialized_result(),
    {
        self.require_initialized()
    }

    pub fn get_state(&self) -> (r: Result<State, NfpError>)
        ensures
            r == Ok::<State, NfpError>(self@.state),
    {
        Ok(self.state)
    }

    pub fn get_device_state(&self) -> (r: Result<DeviceState, NfpError>)
        ensures
            r == Ok::<DeviceState, NfpError>(self@.device_state),
    {
        Ok(self.device_state)
    }

    /// The npad id of the device handle the client passed, echoed back.
    pub fn get_npad_id(&self, npad_id: u32) -> (r: Result<u32, NfpError>)
        ensures
            r == (match self@.initialized_result() {
                Ok(_) => Ok(npad_id),
                Err(e) => Err(e),
            }),
    {
        self.require_initialized()?;
        Ok(npad_id)
    }
}

} // verus!
