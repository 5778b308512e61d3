//! Fixed texts shared by several modules.
use vstd::prelude::*;

verus! {

/// Error code reported when a connector gives none.
pub const NO_ERROR_CODE: &'static str = "No error code";

/// Error message reported when a connector gives none.
pub const NO_ERROR_MESSAGE: &'static str = "No error message";

/// Error code reported when a connector does not answer in time.
pub const REQUEST_TIMEOUT_ERROR_CODE: &'static str = "TIMEOUT";

/// Error message reported when a connector does not answer in time.
pub const REQUEST_TIMEOUT_ERROR_MESSAGE: &'static str = "Connector did not respond in specified time";

/// Unified error code used when no rule gives a better one.
pub const DEFAULT_UNIFIED_ERROR_CODE: &'static str = "UE_9000";

/// Unified error message used when no rule gives a better one.
pub const DEFAULT_UNIFIED_ERROR_MESSAGE: &'static str = "Something went wrong";

/// Name of the refund flow in the gateway status rules.
pub const REFUND_FLOW_STR: &'static str = "refund_flow";

/// Name of the authorize flow in the gateway status rules.
pub const AUTHORIZE_FLOW_STR: &'static str = "Authorize";

/// Header that carries the time spent in outside calls, in milliseconds.
pub const X_HS_LATENCY: &'static str = "x-hs-latency";

/// Tenant used when multitenancy is switched off.
pub const DEFAULT_TENANT: &'static str = "public";

/// Header that names the tenant of a request.
pub const X_TENANT_ID: &'static str = "x-tenant-id";

/// Value logged in place of a header that must not be shown.
pub const MASKED_HEADER: &'static str = "**MASKED**";

} // verus!
