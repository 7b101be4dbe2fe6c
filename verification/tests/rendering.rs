//! Tests of the rendered forms: event labels, controller info, errors,
//! code tables, and the device knowledge.

use openzwave_stateful::Controller;
use openzwave_stateful::ControllerError;
use openzwave_stateful::ControllerInfo;
use openzwave_stateful::ControllerState;
use openzwave_stateful::Error;
use openzwave_stateful::Node;
use openzwave_stateful::NotificationCode;
use openzwave_stateful::NotificationKind;
use openzwave_stateful::ValueID;
use openzwave_stateful::ValueIdentity;
use openzwave_stateful::ZWaveNotification;
use openzwave_stateful::is_usb_zwave_device;
use openzwave_stateful::devices::default_device_candidates;

#[test]
fn controller_events_render_with_their_labels() {
    let c = Controller { home_id: 7 };
    assert_eq!(ZWaveNotification::ControllerReady(c).describe(), "ControllerReady: home 7");
    assert_eq!(ZWaveNotification::ControllerFailed(c).describe(), "ControllerFailed: home 7");
    assert_eq!(
        ZWaveNotification::StateWaiting(c).describe(),
        "ControllerStateWaiting: home 7"
    );
    assert_eq!(ZWaveNotification::ErrorBusy(c).describe(), "ControllerErrorBusy: home 7");
}

#[test]
fn node_events_render_with_their_labels() {
    let n = Node { home_id: 10, node_id: 2 };
    assert_eq!(ZWaveNotification::NodeAdded(n).describe(), "NodeAdded: home 10 node 2");
    assert_eq!(ZWaveNotification::NodeRemoved(n).describe(), "NodeRemoved: home 10 node 2");
    assert_eq!(
        ZWaveNotification::NodeEvent(n, 66).describe(),
        "NodeEvent: home 10 node 2 event 66"
    );
    assert_eq!(
        ZWaveNotification::NotificationSleep(n).describe(),
        "NotificationSleep: home 10 node 2"
    );
}

#[test]
fn value_events_render_their_full_identity() {
    let v = ValueID {
        identity: ValueIdentity {
            home_id: 1,
            node_id: 5,
            command_class: 37,
            instance: 1,
            genre: 2,
            value_type: 3,
            index: 4,
        },
        payload: 11,
    };
    assert_eq!(
        ZWaveNotification::ValueAdded(v).describe(),
        "ValueAdded: home 1 node 5 class 37 instance 1 genre 2 type 3 index 4 payload 11"
    );
}

#[test]
fn generic_events_render_their_text() {
    let ev = ZWaveNotification::Generic("protocol drift".to_string());
    assert_eq!(ev.describe(), "Generic: protocol drift");
}

#[test]
fn numbers_render_in_full() {
    let c = Controller { home_id: 0 };
    assert_eq!(ZWaveNotification::ControllerReady(c).describe(), "ControllerReady: home 0");
    let c = Controller { home_id: u32::MAX };
    assert_eq!(
        ZWaveNotification::ControllerReady(c).describe(),
        "ControllerReady: home 4294967295"
    );
}

#[test]
fn controller_info_renders_state_and_error() {
    let info = ControllerInfo::new();
    assert_eq!(info.describe(), "last_state: Normal last_error: None");
    let info = ControllerInfo {
        last_state: ControllerState::Error,
        last_error: ControllerError::Busy,
    };
    assert_eq!(info.describe(), "last_state: Error last_error: Busy");
}

#[test]
fn error_variants_render_their_causes() {
    let e = Error::NoDeviceFound;
    assert_eq!(e.description(), "No suitable device was found");
    assert_eq!(e.describe(), "No suitable device was found");
    let e = Error::CannotReadDevice("/dev/ttyUSB0".to_string(), "permission denied".to_string());
    assert_eq!(e.description(), "Couldn't read the device");
    assert_eq!(e.describe(), "The device /dev/ttyUSB0 is not readable: permission denied");
    let e = Error::OpenzwaveError("init failed".to_string());
    assert_eq!(e.describe(), "Error in the underlying driver: init failed");
    let e = Error::FsNotifyError("watch limit".to_string());
    assert_eq!(e.describe(), "Could not watch the device file: watch limit");
}

#[test]
fn code_tables_decode_known_and_reject_unknown() {
    assert_eq!(NotificationKind::from_u8(18), Some(NotificationKind::DriverReady));
    assert_eq!(NotificationKind::from_u8(28), Some(NotificationKind::ControllerCommand));
    assert_eq!(NotificationKind::from_u8(11), None);
    assert_eq!(NotificationKind::from_u8(30), None);
    assert_eq!(ControllerState::from_u8(0), Some(ControllerState::Normal));
    assert_eq!(ControllerState::from_u8(3), Some(ControllerState::Error));
    assert_eq!(ControllerState::from_u8(10), Some(ControllerState::NodeFailed));
    assert_eq!(ControllerState::from_u8(11), None);
    assert_eq!(ControllerError::from_u8(0), Some(ControllerError::NoError));
    assert_eq!(ControllerError::from_u8(12), Some(ControllerError::Overflow));
    assert_eq!(ControllerError::from_u8(13), None);
    assert_eq!(NotificationCode::from_u8(6), Some(NotificationCode::Alive));
    assert_eq!(NotificationCode::from_u8(7), None);
}

#[test]
fn known_dongles_are_recognized() {
    assert!(is_usb_zwave_device(0x0658, 0x0200));
    assert!(is_usb_zwave_device(0x0658, 0x0280));
    assert!(is_usb_zwave_device(0x10c4, 0xea60));
    assert!(!is_usb_zwave_device(0x0658, 0x0201));
    assert!(!is_usb_zwave_device(0x10c4, 0x0200));
}

#[test]
fn default_device_candidates_are_the_probe_list() {
    let paths = default_device_candidates();
    assert_eq!(
        paths,
        vec![
            "/dev/cu.usbserial",
            "/dev/cu.SLAB_USBtoUART",
            "/dev/cu.usbmodem14211",
            "/dev/cu.usbmodem1421",
            "/dev/ttyUSB0",
            "/dev/ttyACM0",
        ]
    );
}
