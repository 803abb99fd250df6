use vstd::prelude::*;

verus! {

// ----------- Request Structs -----------

/// A charge point announcing itself.
#[derive(Debug, Clone, PartialEq, Eq)]
pub struct ConnectRequest {
    pub charge_point_id: String,
    pub charge_point_model: String,
    pub charge_point_vendor: String,
    pub firmware_version: Option<String>,
}

/// A request to authorize an id tag.
#[derive(Debug, Clone, PartialEq, Eq)]
pub struct AuthorizeRequest {
    pub id_tag: String,
}

/// A charge point reporting its model and firmware after boot.
#[derive(Debug, Clone, PartialEq, Eq)]
pub struct BootNotificationRequest {
    pub charge_point_model: String,
    pub charge_point_vendor: String,
    pub firmware_version: Option<String>,
}

/// A keep-alive.
#[derive(Debug, Clone, Copy, PartialEq, Eq)]
pub struct HeartbeatRequest;

// ----------- Request Enum -----------

/// An outbound request, tagged by its kind.
#[derive(Debug, Clone, PartialEq, Eq)]
pub enum OcppRequest {
    Connect(ConnectRequest),
    Authorize(AuthorizeRequest),
    BootNotification(BootNotificationRequest),
    Heartbeat(HeartbeatRequest),
}

} // verus!
