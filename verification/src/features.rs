//! Build capabilities and platform description. This engine is built with
//! both cloud sync capabilities present and targets desktop and server
//! deployments; the predicates here are what the surrounding application
//! keys feature decisions on.

use vstd::prelude::*;

verus! {

/// Broker/connect sync is part of this build.
pub open spec fn connect_sync_supported() -> bool {
    true
}

/// Device sync is part of this build.
pub open spec fn device_sync_supported() -> bool {
    true
}

/// This engine targets desktop and server hosts, not mobile ones.
pub open spec fn mobile_target() -> bool {
    false
}

/// Returns true when broker/connect sync was compiled in.
pub fn connect_sync_enabled() -> (r: bool)
    ensures
        r == connect_sync_supported(),
{
    true
}

/// Returns true when device sync was compiled in.
pub fn device_sync_enabled() -> (r: bool)
    ensures
        r == device_sync_supported(),
{
    true
}

/// Returns true when any cloud sync feature is compiled in.
pub fn cloud_sync_enabled() -> (r: bool)
    ensures
        r == (connect_sync_supported() || device_sync_supported()),
{
    connect_sync_enabled() || device_sync_enabled()
}

/// Returns true when broker/connect sync was compiled in.
pub fn is_connect_sync_enabled() -> (r: bool)
    ensures
        r == connect_sync_supported(),
{
    connect_sync_enabled()
}

/// Returns true when device sync was compiled in.
pub fn is_device_sync_enabled() -> (r: bool)
    ensures
        r == device_sync_supported(),
{
    device_sync_enabled()
}

/// Returns true when any cloud sync feature is compiled in.
pub fn is_cloud_sync_enabled() -> (r: bool)
    ensures
        r == (connect_sync_supported() || device_sync_supported()),
{
    cloud_sync_enabled()
}

/// Whether this deployment runs on a mobile host.
pub fn is_mobile() -> (r: bool)
    ensures
        r == mobile_target(),
{
    false
}

/// Whether this deployment runs on a desktop or server host.
pub fn is_desktop() -> (r: bool)
    ensures
        r == !mobile_target(),
{
    !is_mobile()
}

/// Which sync capabilities this build exposes.
#[derive(Debug, Clone, Copy, PartialEq, Eq, Structural)]
pub struct PlatformCapabilities {
    pub connect_sync: bool,
    pub device_sync: bool,
    pub cloud_sync: bool,
}

impl PlatformCapabilities {
    /// The capabilities of this build; cloud sync is the union of the two
    /// specific capabilities.
    pub fn current() -> (c: Self)
        ensures
            c.connect_sync == connect_sync_supported(),
            c.device_sync == device_sync_supported(),
            c.cloud_sync == (c.connect_sync || c.device_sync),
    {
        let connect_sync = connect_sync_enabled();
        let device_sync = device_sync_enabled();
        PlatformCapabilities { connect_sync, device_sync, cloud_sync: connect_sync || device_sync }
    }
}

/// A description of the running platform for the application shell.
#[derive(Debug)]
pub struct PlatformInfo {
    pub os: String,
    pub arch: String,
    pub is_mobile: bool,
    pub is_desktop: bool,
    pub is_tauri: bool,
    pub capabilities: PlatformCapabilities,
}

impl PlatformInfo {
    /// Describe the platform the shell runs on, from the host's operating
    /// system and architecture names.
    pub fn describe(os: String, arch: String) -> (p: Self)
        ensures
            p.os == os,
            p.arch == arch,
            p.is_mobile == mobile_target(),
            p.is_desktop == !mobile_target(),
            p.is_tauri,
            p.capabilities.connect_sync == connect_sync_supported(),
            p.capabilities.device_sync == device_sync_supported(),
            p.capabilities.cloud_sync == (connect_sync_supported() || device_sync_supported()),
    {
        PlatformInfo {
            os,
            arch,
            is_mobile: is_mobile(),
            is_desktop: is_desktop(),
            is_tauri: true,
            capabilities: PlatformCapabilities::current(),
        }
    }
}

/// Service for interacting with the cloud API: it pairs the stored access
/// token with the resolved base URL so the surrounding application can
/// build an authenticated client.
#[derive(Debug, Default)]
pub struct ConnectService;

/// Why an authenticated API client could not be produced.
#[derive(Debug)]
pub enum ClientGateError {
    /// Connect sync is disabled in this build.
    FeatureDisabled,
    /// No cloud API base URL is available.
    BaseUrlUnavailable,
    /// No access token is stored; the user must sign in first.
    TokenMissing,
    /// The secret store failed; carries its error description.
    StoreFailure { message: String },
}

impl ConnectService {
    /// Create a new ConnectService instance.
    pub fn new() -> (s: Self)
        ensures
            s == ConnectService,
    {
        ConnectService
    }

    /// The decision half of producing an authenticated API client: given
    /// the resolved base URL and the secret store's answer for the access
    /// token, hand back the pair an authenticated client is built from, or
    /// the exact reason none can be.
    pub fn client_inputs(
        &self,
        base_url: Option<String>,
        token_lookup: Result<Option<String>, String>,
    ) -> (r: Result<(String, String), ClientGateError>)
        ensures
            match r {
                Ok(pair) => connect_sync_supported() && (base_url matches Some(u) && u == pair.0)
                    && (token_lookup matches Ok(Some(t)) && t == pair.1),
                Err(ClientGateError::FeatureDisabled) => !connect_sync_supported(),
                Err(ClientGateError::BaseUrlUnavailable) => connect_sync_supported() && base_url
                    is None,
                Err(ClientGateError::TokenMissing) => connect_sync_supported() && base_url is Some
                    && (token_lookup matches Ok(t) && t is None),
                Err(ClientGateError::StoreFailure { message }) => connect_sync_supported()
                    && base_url is Some && (token_lookup matches Err(m) && m == message),
            },
    {
        if !connect_sync_enabled() {
            return Err(ClientGateError::FeatureDisabled);
        }
        let url = match base_url {
            Some(u) => u,
            None => {
                return Err(ClientGateError::BaseUrlUnavailable);
            },
        };
        match token_lookup {
            Ok(Some(token)) => Ok((url, token)),
            Ok(None) => Err(ClientGateError::TokenMissing),
            Err(message) => Err(ClientGateError::StoreFailure { message }),
        }
    }
}

} // verus!
