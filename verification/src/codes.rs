//! The 8-bit wire codes the driver uses, and their decoding.
//!
//! Each enumeration mirrors one code table of the driver: the kind of a
//! notification, the lifecycle state a controller reports while running a
//! command, the error a controller reports, and the sub-code of a plain
//! `Notification` report.  Decoding is total over `u8`: a code outside a
//! table decodes to `None`, which the translator surfaces as a diagnostic
//! event rather than dropping or failing.

use vstd::prelude::*;

verus! {

/// The kind of a raw driver notification, for the kinds this library
/// reacts to.  The driver's table holds further kinds (polling, scenes,
/// buttons); those decode to `None` and are surfaced as diagnostics,
/// exactly like codes unknown to the driver itself.
#[derive(PartialEq, Eq, Structural, Clone, Copy, Debug)]
pub enum NotificationKind {
    ValueAdded,
    ValueRemoved,
    ValueChanged,
    ValueRefreshed,
    Group,
    NodeNew,
    NodeAdded,
    NodeRemoved,
    NodeProtocolInfo,
    NodeNaming,
    NodeEvent,
    DriverReady,
    DriverFailed,
    DriverReset,
    EssentialNodeQueriesComplete,
    NodeQueriesComplete,
    AwakeNodesQueried,
    AllNodesQueriedSomeDead,
    AllNodesQueried,
    Notification,
    ControllerCommand,
}

impl NotificationKind {
    /// The decoding of a raw notification-type byte, as contracts see it.
    /// The codes are the driver's: value lifecycle 0..=3, group 4, node
    /// lifecycle 5..=10, driver lifecycle 18..=20, query completion
    /// 21..=25, sub-coded notification 26, controller command 28.
    pub open spec fn spec_from_u8(code: u8) -> Option<NotificationKind> {
        match code {
            0u8 => Some(NotificationKind::ValueAdded),
            1u8 => Some(NotificationKind::ValueRemoved),
            2u8 => Some(NotificationKind::ValueChanged),
            3u8 => Some(NotificationKind::ValueRefreshed),
            4u8 => Some(NotificationKind::Group),
            5u8 => Some(NotificationKind::NodeNew),
            6u8 => Some(NotificationKind::NodeAdded),
            7u8 => Some(NotificationKind::NodeRemoved),
            8u8 => Some(NotificationKind::NodeProtocolInfo),
            9u8 => Some(NotificationKind::NodeNaming),
            10u8 => Some(NotificationKind::NodeEvent),
            18u8 => Some(NotificationKind::DriverReady),
            19u8 => Some(NotificationKind::DriverFailed),
            20u8 => Some(NotificationKind::DriverReset),
            21u8 => Some(NotificationKind::EssentialNodeQueriesComplete),
            22u8 => Some(NotificationKind::NodeQueriesComplete),
            23u8 => Some(NotificationKind::AwakeNodesQueried),
            24u8 => Some(NotificationKind::AllNodesQueriedSomeDead),
            25u8 => Some(NotificationKind::AllNodesQueried),
            26u8 => Some(NotificationKind::Notification),
            28u8 => Some(NotificationKind::ControllerCommand),
            _ => None,
        }
    }

    /// Decode a raw notification-type byte.
    pub fn from_u8(code: u8) -> (r: Option<NotificationKind>)
        ensures
            r == NotificationKind::spec_from_u8(code),
    {
        match code {
            0u8 => Some(NotificationKind::ValueAdded),
            1u8 => Some(NotificationKind::ValueRemoved),
            2u8 => Some(NotificationKind::ValueChanged),
            3u8 => Some(NotificationKind::ValueRefreshed),
            4u8 => Some(NotificationKind::Group),
            5u8 => Some(NotificationKind::NodeNew),
            6u8 => Some(NotificationKind::NodeAdded),
            7u8 => Some(NotificationKind::NodeRemoved),
            8u8 => Some(NotificationKind::NodeProtocolInfo),
            9u8 => Some(NotificationKind::NodeNaming),
            10u8 => Some(NotificationKind::NodeEvent),
            18u8 => Some(NotificationKind::DriverReady),
            19u8 => Some(NotificationKind::DriverFailed),
            20u8 => Some(NotificationKind::DriverReset),
            21u8 => Some(NotificationKind::EssentialNodeQueriesComplete),
            22u8 => Some(NotificationKind::NodeQueriesComplete),
            23u8 => Some(NotificationKind::AwakeNodesQueried),
            24u8 => Some(NotificationKind::AllNodesQueriedSomeDead),
            25u8 => Some(NotificationKind::AllNodesQueried),
            26u8 => Some(NotificationKind::Notification),
            28u8 => Some(NotificationKind::ControllerCommand),
            _ => None,
        }
    }
}

/// The lifecycle state a controller reports while it runs a command.
/// `Error` announces that a separate error code follows in the same
/// notification.
#[derive(PartialEq, Eq, Structural, Clone, Copy, Debug)]
pub enum ControllerState {
    Normal,
    Starting,
    Cancel,
    Error,
    Waiting,
    Sleeping,
    InProgress,
    Completed,
    Failed,
    NodeOK,
    NodeFailed,
}

impl ControllerState {
    /// The decoding of a controller-state byte, as contracts see it:
    /// the driver's table assigns 0..=10 in declaration order.
    pub open spec fn spec_from_u8(code: u8) -> Option<ControllerState> {
        match code {
            0u8 => Some(ControllerState::Normal),
            1u8 => Some(ControllerState::Starting),
            2u8 => Some(ControllerState::Cancel),
            3u8 => Some(ControllerState::Error),
            4u8 => Some(ControllerState::Waiting),
            5u8 => Some(ControllerState::Sleeping),
            6u8 => Some(ControllerState::InProgress),
            7u8 => Some(ControllerState::Completed),
            8u8 => Some(ControllerState::Failed),
            9u8 => Some(ControllerState::NodeOK),
            10u8 => Some(ControllerState::NodeFailed),
            _ => None,
        }
    }

    /// Decode a controller-state byte.
    pub fn from_u8(code: u8) -> (r: Option<ControllerState>)
        ensures
            r == ControllerState::spec_from_u8(code),
    {
        match code {
            0u8 => Some(ControllerState::Normal),
            1u8 => Some(ControllerState::Starting),
            2u8 => Some(ControllerState::Cancel),
            3u8 => Some(ControllerState::Error),
            4u8 => Some(ControllerState::Waiting),
            5u8 => Some(ControllerState::Sleeping),
            6u8 => Some(ControllerState::InProgress),
            7u8 => Some(ControllerState::Completed),
            8u8 => Some(ControllerState::Failed),
            9u8 => Some(ControllerState::NodeOK),
            10u8 => Some(ControllerState::NodeFailed),
            _ => None,
        }
    }
}

impl ControllerState {
    /// The name of this state, as contracts see it.
    pub open spec fn name_text(self) -> Seq<char> {
        match self {
            ControllerState::Normal => "Normal"@,
            ControllerState::Starting => "Starting"@,
            ControllerState::Cancel => "Cancel"@,
            ControllerState::Error => "Error"@,
            ControllerState::Waiting => "Waiting"@,
            ControllerState::Sleeping => "Sleeping"@,
            ControllerState::InProgress => "InProgress"@,
            ControllerState::Completed => "Completed"@,
            ControllerState::Failed => "Failed"@,
            ControllerState::NodeOK => "NodeOK"@,
            ControllerState::NodeFailed => "NodeFailed"@,
        }
    }

    /// The name of this state.
    pub fn name_str(&self) -> (s: &'static str)
        ensures
            s@ == self.name_text(),
    {
        match self {
            ControllerState::Normal => "Normal",
            ControllerState::Starting => "Starting",
            ControllerState::Cancel => "Cancel",
            ControllerState::Error => "Error",
            ControllerState::Waiting => "Waiting",
            ControllerState::Sleeping => "Sleeping",
            ControllerState::InProgress => "InProgress",
            ControllerState::Completed => "Completed",
            ControllerState::Failed => "Failed",
            ControllerState::NodeOK => "NodeOK",
            ControllerState::NodeFailed => "NodeFailed",
        }
    }
}

/// The error a controller reports when a command fails.
#[derive(PartialEq, Eq, Structural, Clone, Copy, Debug)]
pub enum ControllerError {
    NoError,
    ButtonNotFound,
    NodeNotFound,
    NotBridge,
    NotSUC,
    NotSecondary,
    NotPrimary,
    IsPrimary,
    NotFound,
    Busy,
    Failed,
    Disabled,
    Overflow,
}

impl ControllerError {
    /// The decoding of a controller-error byte, as contracts see it:
    /// the driver's table assigns 0..=12 in declaration order.
    pub open spec fn spec_from_u8(code: u8) -> Option<ControllerError> {
        match code {
            0u8 => Some(ControllerError::NoError),
            1u8 => Some(ControllerError::ButtonNotFound),
            2u8 => Some(ControllerError::NodeNotFound),
            3u8 => Some(ControllerError::NotBridge),
            4u8 => Some(ControllerError::NotSUC),
            5u8 => Some(ControllerError::NotSecondary),
            6u8 => Some(ControllerError::NotPrimary),
            7u8 => Some(ControllerError::IsPrimary),
            8u8 => Some(ControllerError::NotFound),
            9u8 => Some(ControllerError::Busy),
            10u8 => Some(ControllerError::Failed),
            11u8 => Some(ControllerError::Disabled),
            12u8 => Some(ControllerError::Overflow),
            _ => None,
        }
    }

    /// Decode a controller-error byte.
    pub fn from_u8(code: u8) -> (r: Option<ControllerError>)
        ensures
            r == ControllerError::spec_from_u8(code),
    {
        match code {
            0u8 => Some(ControllerError::NoError),
            1u8 => Some(ControllerError::ButtonNotFound),
            2u8 => Some(ControllerError::NodeNotFound),
            3u8 => Some(ControllerError::NotBridge),
            4u8 => Some(ControllerError::NotSUC),
            5u8 => Some(ControllerError::NotSecondary),
            6u8 => Some(ControllerError::NotPrimary),
            7u8 => Some(ControllerError::IsPrimary),
            8u8 => Some(ControllerError::NotFound),
            9u8 => Some(ControllerError::Busy),
            10u8 => Some(ControllerError::Failed),
            11u8 => Some(ControllerError::Disabled),
            12u8 => Some(ControllerError::Overflow),
            _ => None,
        }
    }
}

impl ControllerError {
    /// The name of this error, as contracts see it.
    pub open spec fn name_text(self) -> Seq<char> {
        match self {
            ControllerError::NoError => "None"@,
            ControllerError::ButtonNotFound => "ButtonNotFound"@,
            ControllerError::NodeNotFound => "NodeNotFound"@,
            ControllerError::NotBridge => "NotBridge"@,
            ControllerError::NotSUC => "NotSUC"@,
            ControllerError::NotSecondary => "NotSecondary"@,
            ControllerError::NotPrimary => "NotPrimary"@,
            ControllerError::IsPrimary => "IsPrimary"@,
            ControllerError::NotFound => "NotFound"@,
            ControllerError::Busy => "Busy"@,
            ControllerError::Failed => "Failed"@,
            ControllerError::Disabled => "Disabled"@,
            ControllerError::Overflow => "Overflow"@,
        }
    }

    /// The name of this error.
    pub fn name_str(&self) -> (s: &'static str)
        ensures
            s@ == self.name_text(),
    {
        match self {
            ControllerError::NoError => "None",
            ControllerError::ButtonNotFound => "ButtonNotFound",
            ControllerError::NodeNotFound => "NodeNotFound",
            ControllerError::NotBridge => "NotBridge",
            ControllerError::NotSUC => "NotSUC",
            ControllerError::NotSecondary => "NotSecondary",
            ControllerError::NotPrimary => "NotPrimary",
            ControllerError::IsPrimary => "IsPrimary",
            ControllerError::NotFound => "NotFound",
            ControllerError::Busy => "Busy",
            ControllerError::Failed => "Failed",
            ControllerError::Disabled => "Disabled",
            ControllerError::Overflow => "Overflow",
        }
    }
}

/// The sub-code of a plain `Notification` report about a node.
#[derive(PartialEq, Eq, Structural, Clone, Copy, Debug)]
pub enum NotificationCode {
    MsgComplete,
    Timeout,
    NoOperation,
    Awake,
    Sleep,
    Dead,
    Alive,
}

impl NotificationCode {
    /// The decoding of a sub-code byte, as contracts see it: the
    /// driver's table assigns 0..=6 in declaration order.
    pub open spec fn spec_from_u8(code: u8) -> Option<NotificationCode> {
        match code {
            0u8 => Some(NotificationCode::MsgComplete),
            1u8 => Some(NotificationCode::Timeout),
            2u8 => Some(NotificationCode::NoOperation),
            3u8 => Some(NotificationCode::Awake),
            4u8 => Some(NotificationCode::Sleep),
            5u8 => Some(NotificationCode::Dead),
            6u8 => Some(NotificationCode::Alive),
            _ => None,
        }
    }

    /// Decode a sub-code byte.
    pub fn from_u8(code: u8) -> (r: Option<NotificationCode>)
        ensures
            r == NotificationCode::spec_from_u8(code),
    {
        match code {
            0u8 => Some(NotificationCode::MsgComplete),
            1u8 => Some(NotificationCode::Timeout),
            2u8 => Some(NotificationCode::NoOperation),
            3u8 => Some(NotificationCode::Awake),
            4u8 => Some(NotificationCode::Sleep),
            5u8 => Some(NotificationCode::Dead),
            6u8 => Some(NotificationCode::Alive),
            _ => None,
        }
    }
}

} // verus!
