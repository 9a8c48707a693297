//! The Collector's request handling: shared-secret authentication, the
//! response for each outcome, and the notification payload forwarded to the
//! downstream webhook sink on each accepted report.

use vstd::prelude::*;
use vstd::string::StringExecFns;

use crate::config::ConfigError;
use crate::text::str_eq;

verus! {

/// The fixed text served on the Collector's liveness path.
pub fn health_body() -> (r: &'static str)
    ensures
        r@ == "Hello, World!"@,
{
    "Hello, World!"
}

/// The severity color marker carried by every forwarded notification.
pub const SEVERITY_COLOR: u32 = 16711680;

/// The HTTP status of an accepted report.
pub const STATUS_OK: u16 = 200;

/// The HTTP status of a report whose shared secret does not match.
pub const STATUS_UNAUTHORIZED: u16 = 401;

/// The Collector's validated configuration. `webhook_message` and `bind`
/// carry their defaults when the options were not set.
#[derive(Debug)]
pub struct CollectorConfig {
    pub api_key: String,
    pub webhook_url: String,
    pub webhook_message: String,
    pub bind: String,
}

/// The content sent when no webhook message is configured.
pub open spec fn default_webhook_message() -> Seq<char> {
    "Rate limit exceeded"@
}

/// The listen address used when none is configured.
pub open spec fn default_bind() -> Seq<char> {
    "0.0.0.0:3000"@
}

/// Validates the Collector's configuration: the shared secret and the
/// webhook URL are required, the message and the listen address fall back
/// to their defaults.
pub fn collector_config(
    api_key: Option<String>,
    webhook_url: Option<String>,
    webhook_message: Option<String>,
    bind: Option<String>,
) -> (r: Result<CollectorConfig, ConfigError>)
    ensures
        (r is Ok) <==> (api_key is Some && webhook_url is Some),
        api_key is None ==> r == Err::<CollectorConfig, ConfigError>(ConfigError::MissingApiKey),
        (api_key is Some && webhook_url is None) ==> r == Err::<CollectorConfig, ConfigError>(
            ConfigError::MissingWebhookUrl,
        ),
        r matches Ok(c) ==> {
            &&& api_key matches Some(k) && c.api_key == k
            &&& webhook_url matches Some(u) && c.webhook_url == u
            &&& c.webhook_message@ == (match webhook_message {
                Some(m) => m@,
                None => default_webhook_message(),
            })
            &&& c.bind@ == (match bind {
                Some(b) => b@,
                None => default_bind(),
            })
        },
{
    let api_key = match api_key {
        Some(k) => k,
        None => {
            return Err(ConfigError::MissingApiKey);
        },
    };
    let webhook_url = match webhook_url {
        Some(u) => u,
        None => {
            return Err(ConfigError::MissingWebhookUrl);
        },
    };
    let webhook_message = match webhook_message {
        Some(m) => m,
        None => "Rate limit exceeded".to_owned(),
    };
    let bind = match bind {
        Some(b) => b,
        None => "0.0.0.0:3000".to_owned(),
    };
    Ok(CollectorConfig { api_key, webhook_url, webhook_message, bind })
}

/// The notification forwarded to the downstream webhook sink: a content
/// line, and one embed with a fixed title, a description naming the
/// reporting node, and a fixed severity color.
#[derive(Debug)]
pub struct NotificationPayload {
    pub content: String,
    pub title: String,
    pub description: String,
    pub color: u32,
}

/// The embed description for a report from `node`.
pub open spec fn spec_description(node: Seq<char>) -> Seq<char> {
    "Rate limit exceeded on node "@ + node
}

/// The confirmation body of an accepted report from `node`.
pub open spec fn spec_ok_body(node: Seq<char>) -> Seq<char> {
    "Ratelimit for node "@ + node + " reported"@
}

/// Whether a request's `Authorization` header matches the configured shared
/// secret: exact string equality, so a missing header never matches.
pub open spec fn auth_ok(authorization: Option<&str>, key: Seq<char>) -> bool {
    match authorization {
        Some(a) => a@ == key,
        None => false,
    }
}

/// The Collector's answer to one report: the HTTP status and body to send
/// back, and the one notification owed downstream when the report was
/// accepted — `None` exactly when the request was rejected, so an accepted
/// report forwards exactly one notification and a rejected one forwards
/// none.
#[derive(Debug)]
pub struct CollectorResponse {
    pub status: u16,
    pub body: String,
    pub notification: Option<NotificationPayload>,
}

/// Handles one report: authenticates it against the configured shared
/// secret, and on success builds the confirmation body and the notification
/// payload for the webhook sink.
pub fn handle_report(
    config: &CollectorConfig,
    authorization: Option<&str>,
    node: &str,
) -> (r: CollectorResponse)
    ensures
        (r.notification is Some) <==> auth_ok(authorization, config.api_key@),
        auth_ok(authorization, config.api_key@) ==> {
            &&& r.status == STATUS_OK
            &&& r.body@ == spec_ok_body(node@)
            &&& r.notification matches Some(n) && {
                &&& n.content@ == config.webhook_message@
                &&& n.title@ == "Rate limit exceeded"@
                &&& n.description@ == spec_description(node@)
                &&& n.color == SEVERITY_COLOR
            }
        },
        !auth_ok(authorization, config.api_key@) ==> {
            &&& r.status == STATUS_UNAUTHORIZED
            &&& r.body@ == "Unauthorized"@
            &&& r.notification is None
        },
{
    let authorized = match authorization {
        Some(a) => str_eq(a, config.api_key.as_str()),
        None => false,
    };
    if !authorized {
        return CollectorResponse {
            status: STATUS_UNAUTHORIZED,
            body: "Unauthorized".to_owned(),
            notification: None,
        };
    }
    let mut body = "Ratelimit for node ".to_owned();
    body.append(node);
    body.append(" reported");
    let mut description = "Rate limit exceeded on node ".to_owned();
    description.append(node);
    proof {
        assert(body@ =~= spec_ok_body(node@));
    }
    CollectorResponse {
        status: STATUS_OK,
        body,
        notification: Some(
            NotificationPayload {
                content: config.webhook_message.clone(),
                title: "Rate limit exceeded".to_owned(),
                description,
                color: SEVERITY_COLOR,
            },
        ),
    }
}

} // verus!
