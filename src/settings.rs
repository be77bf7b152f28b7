use vstd::prelude::*;
use crate::error::ReconcileError;

verus! {

/// Namespace of the ingress service whose ports are forwarded.
pub const INGRESS_NAMESPACE: &'static str = "istio-system";

/// Name of the ingress service whose ports are forwarded.
pub const INGRESS_SERVICE: &'static str = "istio-ingress-gateway";

/// Key, within the secret, of the private key for the remote host.
pub const PRIVATE_KEY_ENTRY: &'static str = "ssh-privatekey";

/// Path of the proxy configuration on the remote host.
pub const REMOTE_CONFIG_PATH: &'static str = "/config/nginx/nginx.conf";

/// Permission bits of the remote configuration file.
pub const REMOTE_CONFIG_MODE: i32 = 0o644;

/// Command that makes the remote proxy load its configuration again.
pub const RELOAD_COMMAND: &'static str = "docker exec nginx-proxy nginx -s reload";

/// Port of the remote host's secure shell service.
pub const REMOTE_SHELL_PORT: u16 = 22;

/// Seconds between two ticks of the loop.
pub const TICK_SECONDS: u64 = 5;

pub const DEFAULT_SECRET_NAMESPACE: &'static str = "external-proxy";

pub const DEFAULT_SECRET_NAME: &'static str = "proxy-server-ssh-key";

pub const DEFAULT_PROXY_HOST: &'static str = "tiny.pizza";

pub const DEFAULT_PROXY_USER: &'static str = "root";

/// The configured value when there is one, else the default.
pub open spec fn chosen(value: Option<String>, default: &str) -> Seq<char> {
    match value {
        Some(v) => v@,
        None => default@,
    }
}

fn or_default(value: Option<String>, default: &str) -> (r: String)
    ensures
        r@ == chosen(value, default),
{
    match value {
        Some(v) => v,
        None => default.to_owned(),
    }
}

/// Where the private key is kept and which remote host it opens.
#[derive(Clone, Debug)]
pub struct ProxySettings {
    pub secret_namespace: String,
    pub secret_name: String,
    pub proxy_host: String,
    pub proxy_user: String,
}

impl ProxySettings {
    /// Settings from the values given, each missing one replaced by its default.
    pub fn from_values(
        secret_namespace: Option<String>,
        secret_name: Option<String>,
        proxy_host: Option<String>,
        proxy_user: Option<String>,
    ) -> (r: ProxySettings)
        ensures
            r.secret_namespace@ == chosen(secret_namespace, DEFAULT_SECRET_NAMESPACE),
            r.secret_name@ == chosen(secret_name, DEFAULT_SECRET_NAME),
            r.proxy_host@ == chosen(proxy_host, DEFAULT_PROXY_HOST),
            r.proxy_user@ == chosen(proxy_user, DEFAULT_PROXY_USER),
    {
        ProxySettings {
            secret_namespace: or_default(secret_namespace, DEFAULT_SECRET_NAMESPACE),
            secret_name: or_default(secret_name, DEFAULT_SECRET_NAME),
            proxy_host: or_default(proxy_host, DEFAULT_PROXY_HOST),
            proxy_user: or_default(proxy_user, DEFAULT_PROXY_USER),
        }
    }
}

/// The private key that opens one remote session. It is fetched afresh for
/// each session and not kept beyond it.
#[derive(Debug)]
pub struct RemoteCredential {
    pub private_key: Vec<u8>,
}

impl RemoteCredential {
    /// The credential from the secret's key entry; a secret without that
    /// entry cannot authenticate.
    pub fn from_secret_entry(entry: Option<Vec<u8>>) -> (r: Result<RemoteCredential, ReconcileError>)
        ensures
            entry is Some ==> (r is Ok && r->Ok_0.private_key == entry->Some_0),
            entry is None ==> r == Err::<RemoteCredential, ReconcileError>(
                ReconcileError::AuthError,
            ),
    {
        match entry {
            Some(k) => Ok(RemoteCredential { private_key: k }),
            None => Err(ReconcileError::AuthError),
        }
    }
}

} // verus!
