use vstd::prelude::*;

use crate::types::{DeviceState, EmulationStatus, State};
use crate::user::{User, UserView};

verus! {

/// Opens NFP user sessions for one intercepted program.
pub struct UserManager {
    program_id: u64,
}

impl UserManager {
    /// A manager for the program `program_id`.
    pub fn new(program_id: u64) -> (m: UserManager)
        ensures
            m.program_id() == program_id,
    {
        UserManager { program_id }
    }

    pub closed spec fn program_id(self) -> u64 {
        self.program_id
    }

    pub fn get_program_id(&self) -> (id: u64)
        ensures
            id == self.program_id(),
    {
        self.program_id
    }

    /// A fresh user session on behalf of the manager's program.
    pub fn create_user_interface(&self) -> (user: User)
        ensures
            user@ == (UserView {
                application_id: self.program_id(),
                state: State::NonInitialized,
                device_state: DeviceState::Unavailable,
                opened_area: None,
                end_requested: false,
            }),
    {
        User::new(self.program_id)
    }
}

/// Sessions are intercepted exactly while emulation is on.
pub fn should_mitm(status: EmulationStatus) -> (b: bool)
    ensures
        b == (status == EmulationStatus::On),
{
    match status {
        EmulationStatus::On => true,
        EmulationStatus::Off => false,
    }
}

} // verus!
