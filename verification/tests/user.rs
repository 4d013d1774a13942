use emuiibo::manager::{should_mitm, UserManager};
use emuiibo::types::{
    Controller, DeviceEvent, DeviceState, EmulationStatus, NfpError, State, VirtualAmiiboStatus,
};
use emuiibo::user::User;

fn mounted_user() -> User {
    let mut u = User::new(7);
    assert_eq!(u.initialize(), Ok(()));
    assert_eq!(u.mount(), Ok(()));
    u
}

#[test]
fn new_user_is_uninitialized_and_unavailable() {
    let u = User::new(0x0100_0000_0000_1000);
    assert!(u.is_state(State::NonInitialized));
    assert!(u.is_device_state(DeviceState::Unavailable));
    assert_eq!(u.application_id(), 0x0100_0000_0000_1000);
    assert!(!u.thread_should_end());
    assert_eq!(u.get_state(), Ok(State::NonInitialized));
    assert_eq!(u.get_device_state(), Ok(DeviceState::Unavailable));
}

#[test]
fn uninitialized_refuses_every_command_but_initialize() {
    let mut u = User::new(1);
    assert_eq!(u.finalize(), Err(NfpError::DeviceNotFound));
    assert_eq!(u.list_devices(true), Err(NfpError::DeviceNotFound));
    assert_eq!(u.start_detection(), Err(NfpError::DeviceNotFound));
    assert_eq!(u.stop_detection(), Err(NfpError::DeviceNotFound));
    assert_eq!(u.mount(), Err(NfpError::DeviceNotFound));
    assert_eq!(u.unmount(), Err(NfpError::DeviceNotFound));
    assert_eq!(u.open_application_area(3, true, true), Err(NfpError::DeviceNotFound));
    assert_eq!(u.get_application_area(true, Ok(8), 8), Err(NfpError::DeviceNotFound));
    assert_eq!(u.set_application_area(true, Ok(8), 8), Err(NfpError::DeviceNotFound));
    assert_eq!(u.get_application_area_size(true, Ok(8)), Err(NfpError::DeviceNotFound));
    assert_eq!(u.flush(), Err(NfpError::DeviceNotFound));
    assert_eq!(u.restore(), Err(NfpError::DeviceNotFound));
    assert_eq!(u.create_application_area(true, false), Err(NfpError::DeviceNotFound));
    assert_eq!(u.recreate_application_area(true), Err(NfpError::DeviceNotFound));
    assert_eq!(u.get_tag_info(true), Err(NfpError::DeviceNotFound));
    assert_eq!(u.get_register_info(true), Err(NfpError::DeviceNotFound));
    assert_eq!(u.get_common_info(true), Err(NfpError::DeviceNotFound));
    assert_eq!(u.get_model_info(true), Err(NfpError::DeviceNotFound));
    assert_eq!(u.attach_activate_event(), Err(NfpError::DeviceNotFound));
    assert_eq!(u.attach_deactivate_event(), Err(NfpError::DeviceNotFound));
    assert_eq!(u.attach_availability_change_event(), Err(NfpError::DeviceNotFound));
    assert_eq!(u.get_npad_id(5), Err(NfpError::DeviceNotFound));
    // nothing changed
    assert!(u.is_state(State::NonInitialized));
    assert!(u.is_device_state(DeviceState::Unavailable));
    assert_eq!(u.initialize(), Ok(()));
    assert!(u.is_state(State::Initialized));
    assert!(u.is_device_state(DeviceState::Initialized));
}

#[test]
fn initialize_twice_is_refused() {
    let mut u = User::new(1);
    assert_eq!(u.initialize(), Ok(()));
    assert_eq!(u.initialize(), Err(NfpError::DeviceNotFound));
    assert!(u.is_state(State::Initialized));
}

#[test]
fn finalize_after_initialize_and_again() {
    let mut u = User::new(2);
    assert_eq!(u.initialize(), Ok(()));
    assert_eq!(u.finalize(), Ok(()));
    assert!(u.is_state(State::NonInitialized));
    assert!(u.is_device_state(DeviceState::Finalized));
    assert_eq!(u.finalize(), Err(NfpError::DeviceNotFound));
    assert_eq!(u.initialize(), Ok(()));
    assert!(u.is_device_state(DeviceState::Initialized));
}

#[test]
fn list_devices_picks_controller() {
    let mut u = User::new(3);
    u.initialize().unwrap();
    assert_eq!(u.list_devices(true), Ok((Controller::Player1, 1)));
    assert_eq!(u.list_devices(false), Ok((Controller::Handheld, 1)));
}

#[test]
fn detection_and_amiibo_cycle() {
    let mut u = User::new(4);
    u.initialize().unwrap();
    // a connected amiibo is ignored while not searching
    assert_eq!(u.handle_virtual_amiibo_status(VirtualAmiiboStatus::Connected), None);
    assert!(u.is_device_state(DeviceState::Initialized));
    assert_eq!(u.start_detection(), Ok(()));
    assert!(u.is_device_state(DeviceState::SearchingForTag));
    assert_eq!(u.handle_virtual_amiibo_status(VirtualAmiiboStatus::Invalid), None);
    assert_eq!(
        u.handle_virtual_amiibo_status(VirtualAmiiboStatus::Connected),
        Some(DeviceEvent::Activate)
    );
    assert!(u.is_device_state(DeviceState::TagFound));
    assert_eq!(u.mount(), Ok(()));
    assert!(u.is_device_state(DeviceState::TagMounted));
    assert_eq!(
        u.handle_virtual_amiibo_status(VirtualAmiiboStatus::Disconnected),
        Some(DeviceEvent::Deactivate)
    );
    assert!(u.is_device_state(DeviceState::SearchingForTag));
    assert_eq!(u.handle_virtual_amiibo_status(VirtualAmiiboStatus::Disconnected), None);
    assert_eq!(u.stop_detection(), Ok(()));
    assert!(u.is_device_state(DeviceState::Initialized));
}

#[test]
fn connect_then_disconnect_restores_searching() {
    let mut u = User::new(4);
    u.initialize().unwrap();
    u.start_detection().unwrap();
    u.handle_virtual_amiibo_status(VirtualAmiiboStatus::Connected);
    u.handle_virtual_amiibo_status(VirtualAmiiboStatus::Disconnected);
    assert!(u.is_device_state(DeviceState::SearchingForTag));
    assert!(u.is_state(State::Initialized));
}

#[test]
fn start_detection_needs_initialized_or_removed_device() {
    let mut u = User::new(5);
    u.initialize().unwrap();
    u.start_detection().unwrap();
    assert_eq!(u.start_detection(), Err(NfpError::DeviceNotFound));
    assert!(u.is_device_state(DeviceState::SearchingForTag));
    u.mount().unwrap();
    assert_eq!(u.start_detection(), Err(NfpError::DeviceNotFound));
    assert!(u.is_device_state(DeviceState::TagMounted));
}

#[test]
fn unmount_leaves_tag_found() {
    let mut u = mounted_user();
    assert_eq!(u.unmount(), Ok(()));
    assert!(u.is_device_state(DeviceState::TagFound));
    assert_eq!(u.get_tag_info(true), Ok(()));
    assert_eq!(u.get_register_info(true), Err(NfpError::DeviceNotFound));
}

#[test]
fn open_application_area_checks() {
    let mut u = mounted_user();
    assert_eq!(u.open_application_area(9, false, true), Err(NfpError::DeviceNotFound));
    assert_eq!(u.open_application_area(9, true, false), Err(NfpError::AreaNeedsToBeCreated));
    assert_eq!(u.open_application_area(9, true, true), Ok(()));
    let mut f = User::new(1);
    f.initialize().unwrap();
    assert_eq!(f.open_application_area(9, true, true), Err(NfpError::DeviceNotFound));
}

#[test]
fn area_transfer_is_cut_to_the_smaller_size() {
    let u = mounted_user();
    assert_eq!(u.get_application_area(true, Ok(0xd8), 0x100), Ok(0xd8));
    assert_eq!(u.get_application_area(true, Ok(0xd8), 0x10), Ok(0x10));
    assert_eq!(u.set_application_area(true, Ok(0xd8), 0x20), Ok(0x20));
    assert_eq!(u.set_application_area(true, Ok(0xd8), 0x200), Ok(0xd8));
    assert_eq!(u.get_application_area_size(true, Ok(0xd8)), Ok(0xd8));
}

#[test]
fn area_errors() {
    let u = mounted_user();
    assert_eq!(u.get_application_area(false, Ok(8), 8), Err(NfpError::AreaNeedsToBeCreated));
    assert_eq!(u.set_application_area(false, Ok(8), 8), Err(NfpError::AreaNeedsToBeCreated));
    assert_eq!(u.get_application_area_size(false, Ok(8)), Err(NfpError::AreaNeedsToBeCreated));
    assert_eq!(u.get_application_area(true, Err(0x2ca), 8), Err(NfpError::Outside(0x2ca)));
    assert_eq!(u.set_application_area(true, Err(0x2ca), 8), Err(NfpError::Outside(0x2ca)));
    assert_eq!(u.get_application_area_size(true, Err(0x2ca)), Err(NfpError::Outside(0x2ca)));
    let mut found = mounted_user();
    found.unmount().unwrap();
    assert_eq!(found.get_application_area(true, Ok(8), 8), Err(NfpError::DeviceNotFound));
}

#[test]
fn create_and_recreate_application_area() {
    let u = mounted_user();
    assert_eq!(u.create_application_area(true, false), Ok(()));
    assert_eq!(u.create_application_area(true, true), Err(NfpError::AreaNeedsToBeCreated));
    assert_eq!(u.create_application_area(false, false), Err(NfpError::DeviceNotFound));
    assert_eq!(u.recreate_application_area(true), Ok(()));
    assert_eq!(u.recreate_application_area(false), Err(NfpError::DeviceNotFound));
}

#[test]
fn info_queries_need_valid_amiibo() {
    let u = mounted_user();
    assert_eq!(u.get_tag_info(true), Ok(()));
    assert_eq!(u.get_tag_info(false), Err(NfpError::DeviceNotFound));
    assert_eq!(u.get_register_info(true), Ok(()));
    assert_eq!(u.get_common_info(true), Ok(()));
    assert_eq!(u.get_model_info(true), Ok(()));
    assert_eq!(u.get_model_info(false), Err(NfpError::DeviceNotFound));
    let mut s = User::new(1);
    s.initialize().unwrap();
    assert_eq!(s.get_tag_info(true), Err(NfpError::DeviceNotFound));
}

#[test]
fn initialized_only_commands() {
    let mut u = User::new(1);
    u.initialize().unwrap();
    assert_eq!(u.flush(), Ok(()));
    assert_eq!(u.restore(), Ok(()));
    assert_eq!(u.attach_activate_event(), Ok(()));
    assert_eq!(u.attach_deactivate_event(), Ok(()));
    assert_eq!(u.attach_availability_change_event(), Ok(()));
    assert_eq!(u.get_npad_id(0x20), Ok(0x20));
}

#[test]
fn finalized_session_ignores_amiibo_reports() {
    let mut u = User::new(1);
    u.initialize().unwrap();
    u.finalize().unwrap();
    assert_eq!(u.handle_virtual_amiibo_status(VirtualAmiiboStatus::Connected), None);
    assert_eq!(u.handle_virtual_amiibo_status(VirtualAmiiboStatus::Disconnected), None);
    assert!(u.is_device_state(DeviceState::Finalized));
}

#[test]
fn thread_end_request() {
    let mut u = User::new(1);
    u.request_thread_end();
    assert!(u.thread_should_end());
    assert!(u.is_state(State::NonInitialized));
}

#[test]
fn manager_creates_sessions_for_its_program() {
    let m = UserManager::new(0x0100_0000_0000_2000);
    assert_eq!(m.get_program_id(), 0x0100_0000_0000_2000);
    let u = m.create_user_interface();
    assert_eq!(u.application_id(), 0x0100_0000_0000_2000);
    assert!(u.is_state(State::NonInitialized));
}

#[test]
fn mitm_only_while_emulating() {
    assert!(should_mitm(EmulationStatus::On));
    assert!(!should_mitm(EmulationStatus::Off));
}
