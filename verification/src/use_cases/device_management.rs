//! Device registry commands: the device a create makes, the patch an update
//! applies, and the errors and reason codes they are refused with.

use vstd::prelude::*;

use crate::domain::entities::device::{Device, DeviceClass, DeviceKeys, DeviceState};
use crate::domain::types::{eui_display, AppKey, Eui64, NwkKey};
use crate::error::{DomainError, DomainErrorView};

verus! {

/// Where an operation came from.
#[derive(Debug, Clone, Copy, PartialEq, Eq, Structural)]
pub enum EventSource {
    Api,
    Udp,
    System,
}

#[derive(Debug, Clone)]
pub struct CreateDeviceCommand {
    pub dev_eui: Eui64,
    pub app_eui: Eui64,
    pub app_key: AppKey,
    pub nwk_key: NwkKey,
    pub class: DeviceClass,
}

#[derive(Debug, Clone)]
pub struct GetDeviceQuery {
    pub dev_eui: Eui64,
}

/// A patch: each field that is `Some` replaces the device's.
#[derive(Debug, Clone)]
pub struct UpdateDeviceCommand {
    pub dev_eui: Eui64,
    pub app_eui: Option<Eui64>,
    pub app_key: Option<AppKey>,
    pub nwk_key: Option<NwkKey>,
    pub class: Option<DeviceClass>,
    pub state: Option<DeviceState>,
}

#[derive(Debug, Clone)]
pub struct DeleteDeviceCommand {
    pub dev_eui: Eui64,
}

/// Who asked for an operation, and through which channel.
#[derive(Debug, Clone)]
pub struct OperationContext {
    pub source: EventSource,
    pub actor: String,
    pub correlation_id: Option<String>,
}

impl OperationContext {
    /// An anonymous request through the API.
    pub fn api(correlation_id: Option<String>) -> (c: Self)
        ensures
            c.source == EventSource::Api,
            c.actor@ == "anonymous"@,
            c.correlation_id == correlation_id,
    {
        OperationContext { source: EventSource::Api, actor: String::from_str("anonymous"), correlation_id }
    }
}

/// The device service with its repository and audit writer.
pub struct DeviceManagementService<R, A> {
    pub repository: R,
    pub audit_log: A,
}

impl<R, A> DeviceManagementService<R, A> {
    pub fn new(repository: R, audit_log: A) -> (s: Self)
        ensures
            s.repository == repository,
            s.audit_log == audit_log,
    {
        DeviceManagementService { repository, audit_log }
    }
}

/// The device a create command registers: its EUIs, keys and class, not joined yet.
pub open spec fn created_device(c: CreateDeviceCommand) -> Device {
    Device {
        dev_eui: c.dev_eui,
        app_eui: c.app_eui,
        keys: DeviceKeys { app_key: c.app_key, nwk_key: c.nwk_key },
        session: None,
        dev_nonce: None,
        class: c.class,
        state: DeviceState::Init,
        f_cnt_up: 0,
        f_cnt_down: 0,
    }
}

pub fn new_device_from_command(command: CreateDeviceCommand) -> (d: Device)
    ensures
        d == created_device(command),
{
    let mut device = Device::new(command.dev_eui, command.app_eui, DeviceKeys::new(command.app_key, command.nwk_key));
    device.class = command.class;
    device
}

/// A patch that names no field.
pub open spec fn patch_is_empty(c: UpdateDeviceCommand) -> bool {
    &&& c.app_eui is None
    &&& c.app_key is None
    &&& c.nwk_key is None
    &&& c.class is None
    &&& c.state is None
}

/// The error for a patch that names no field.
pub open spec fn empty_patch_error() -> DomainErrorView {
    DomainErrorView::Validation { field: "patch"@, reason: "at least one field must be provided"@ }
}

/// Refuses a patch that names no field.
pub fn validate_update_command(command: &UpdateDeviceCommand) -> (r: Result<(), DomainError>)
    ensures
        r is Ok <==> !patch_is_empty(*command),
        r matches Err(e) ==> e@ == empty_patch_error(),
{
    if command.app_eui.is_none() && command.app_key.is_none() && command.nwk_key.is_none()
        && command.class.is_none() && command.state.is_none() {
        return Err(
            DomainError::Validation {
                field: "patch",
                reason: String::from_str("at least one field must be provided"),
            },
        );
    }
    Ok(())
}

/// `device` with each field the patch names replaced.
pub open spec fn patched_device(device: Device, c: UpdateDeviceCommand) -> Device {
    Device {
        app_eui: match c.app_eui {
            Some(v) => v,
            None => device.app_eui,
        },
        keys: DeviceKeys {
            app_key: match c.app_key {
                Some(v) => v,
                None => device.keys.app_key,
            },
            nwk_key: match c.nwk_key {
                Some(v) => v,
                None => device.keys.nwk_key,
            },
        },
        class: match c.class {
            Some(v) => v,
            None => device.class,
        },
        state: match c.state {
            Some(v) => v,
            None => device.state,
        },
        ..device
    }
}

pub fn apply_device_update(device: Device, command: UpdateDeviceCommand) -> (d: Device)
    ensures
        d == patched_device(device, command),
{
    let mut device = device;
    if let Some(app_eui) = command.app_eui {
        device.app_eui = app_eui;
    }
    if let Some(app_key) = command.app_key {
        device.keys.app_key = app_key;
    }
    if let Some(nwk_key) = command.nwk_key {
        device.keys.nwk_key = nwk_key;
    }
    if let Some(class) = command.class {
        device.class = class;
    }
    if let Some(state) = command.state {
        device.state = state;
    }
    device
}

/// Every field a patch carries is written into the device, and every field it leaves
/// out keeps the device's value.
pub proof fn lemma_patch_applies_given_fields(device: Device, c: UpdateDeviceCommand)
    ensures
        c.app_eui matches Some(v) ==> patched_device(device, c).app_eui == v,
        c.app_eui is None ==> patched_device(device, c).app_eui == device.app_eui,
        c.app_key matches Some(k) ==> patched_device(device, c).keys.app_key == k,
        c.app_key is None ==> patched_device(device, c).keys.app_key == device.keys.app_key,
        c.nwk_key matches Some(k) ==> patched_device(device, c).keys.nwk_key == k,
        c.nwk_key is None ==> patched_device(device, c).keys.nwk_key == device.keys.nwk_key,
        c.class matches Some(v) ==> patched_device(device, c).class == v,
        c.class is None ==> patched_device(device, c).class == device.class,
        c.state matches Some(v) ==> patched_device(device, c).state == v,
        c.state is None ==> patched_device(device, c).state == device.state,
{
}

/// Applying a patch twice gives what applying it once gives.
pub proof fn lemma_patch_idempotent(device: Device, c: UpdateDeviceCommand)
    ensures
        patched_device(patched_device(device, c), c) == patched_device(device, c),
{
}

/// A patch keeps the device's EUI, session, nonce and counters, and an empty
/// patch changes nothing.
pub proof fn lemma_patch_keeps_identity(device: Device, c: UpdateDeviceCommand)
    ensures
        patched_device(device, c).dev_eui == device.dev_eui,
        patched_device(device, c).session == device.session,
        patched_device(device, c).dev_nonce == device.dev_nonce,
        patched_device(device, c).f_cnt_up == device.f_cnt_up,
        patched_device(device, c).f_cnt_down == device.f_cnt_down,
        patch_is_empty(c) ==> patched_device(device, c) == device,
{
}

/// The error for a device that is not registered; its id is the EUI's display form.
pub fn device_not_found(dev_eui: &Eui64) -> (e: DomainError)
    ensures
        e@ == (DomainErrorView::NotFound { entity: "device"@, id: eui_display(dev_eui@) }),
{
    DomainError::NotFound { entity: "device", id: dev_eui.to_string() }
}

/// The error for a device that is registered already.
pub fn device_already_exists(dev_eui: &Eui64) -> (e: DomainError)
    ensures
        e@ == (DomainErrorView::AlreadyExists { entity: "device"@, id: eui_display(dev_eui@) }),
{
    DomainError::AlreadyExists { entity: "device", id: dev_eui.to_string() }
}

/// The audit reason code of each kind of error.
pub open spec fn reason_code_text(e: DomainErrorView) -> Seq<char> {
    match e {
        DomainErrorView::NotFound { .. } => "device_not_found"@,
        DomainErrorView::AlreadyExists { .. } => "device_already_exists"@,
        DomainErrorView::Validation { .. } => "validation_failed"@,
        DomainErrorView::InvalidState { .. } => "invalid_state"@,
    }
}

pub fn reason_code(error: &DomainError) -> (s: String)
    ensures
        s@ == reason_code_text(error@),
{
    match error {
        DomainError::NotFound { .. } => String::from_str("device_not_found"),
        DomainError::AlreadyExists { .. } => String::from_str("device_already_exists"),
        DomainError::Validation { .. } => String::from_str("validation_failed"),
        DomainError::InvalidState { .. } => String::from_str("invalid_state"),
    }
}

/// A create is refused when the EUI is registered already; otherwise it
/// registers the device the command describes.
pub fn create_device_decision(command: CreateDeviceCommand, already_registered: bool) -> (r: Result<Device, DomainError>)
    ensures
        already_registered ==> (r matches Err(e) && e@ == (DomainErrorView::AlreadyExists {
            entity: "device"@,
            id: eui_display(command.dev_eui@),
        })),
        !already_registered ==> r == Ok::<Device, DomainError>(created_device(command)),
{
    if already_registered {
        return Err(device_already_exists(&command.dev_eui));
    }
    Ok(new_device_from_command(command))
}

/// A lookup gives the registered device, or `NotFound` for its EUI.
pub fn get_device_outcome(dev_eui: &Eui64, found: Option<Device>) -> (r: Result<Device, DomainError>)
    ensures
        found matches Some(d) ==> r == Ok::<Device, DomainError>(d),
        found is None ==> (r matches Err(e) && e@ == (DomainErrorView::NotFound {
            entity: "device"@,
            id: eui_display(dev_eui@),
        })),
{
    match found {
        Some(d) => Ok(d),
        None => Err(device_not_found(dev_eui)),
    }
}

/// An update: an empty patch is refused first; then an unknown device is
/// `NotFound`; otherwise the patch is applied to the registered device.
pub fn update_device_decision(command: UpdateDeviceCommand, found: Option<Device>) -> (r: Result<Device, DomainError>)
    ensures
        patch_is_empty(command) ==> (r matches Err(e) && e@ == empty_patch_error()),
        !patch_is_empty(command) && found is None ==> (r matches Err(e) && e@ == (DomainErrorView::NotFound {
            entity: "device"@,
            id: eui_display(command.dev_eui@),
        })),
        !patch_is_empty(command) ==> (found matches Some(d) ==> r == Ok::<Device, DomainError>(
            patched_device(d, command),
        )),
{
    match validate_update_command(&command) {
        Err(e) => {
            return Err(e);
        },
        Ok(()) => {},
    }
    match found {
        Some(d) => Ok(apply_device_update(d, command)),
        None => Err(device_not_found(&command.dev_eui)),
    }
}

/// A delete of an unregistered device is `NotFound`.
pub fn delete_device_decision(dev_eui: &Eui64, registered: bool) -> (r: Result<(), DomainError>)
    ensures
        registered ==> r is Ok,
        !registered ==> (r matches Err(e) && e@ == (DomainErrorView::NotFound {
            entity: "device"@,
            id: eui_display(dev_eui@),
        })),
{
    if registered {
        Ok(())
    } else {
        Err(device_not_found(dev_eui))
    }
}

} // verus!
