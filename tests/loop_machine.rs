use proxy_sync::settings::{ProxySettings, RemoteCredential};
use proxy_sync::{render, Action, DesiredState, Event, Note, Phase, ReconcileError, Reconciler, RenderedConfig};

fn config(text: &str) -> RenderedConfig {
    RenderedConfig::from_text(text.to_string())
}

fn bootstrapped(remote: &str) -> Reconciler {
    let (s, a) = Reconciler::start();
    assert_eq!(a, Action::FetchRemote);
    let (s, a) = s.step(Event::RemoteFetched(Ok(config(remote))));
    assert_eq!(a, Action::Wait(Note::Bootstrapped));
    s
}

fn tick_with(s: Reconciler, candidate: RenderedConfig) -> (Reconciler, Action) {
    let (s, a) = s.step(Event::Tick);
    assert_eq!(a, Action::ObserveAndRender);
    s.step(Event::Rendered(Ok(candidate)))
}

#[test]
fn bootstrap_identical_remote_gives_no_write() {
    let desired = DesiredState { ports: vec![443, 80], address: "203.0.113.7".to_string() };
    let rendered = render(&desired).unwrap();
    let s = bootstrapped(rendered.as_str());
    let (s, a) = tick_with(s, rendered.clone());
    assert_eq!(a, Action::Wait(Note::NoDrift));
    assert_eq!(s.phase, Phase::Idle);
    assert_eq!(s.last_applied(), &Some(rendered));
}

#[test]
fn bootstrap_different_remote_gives_write() {
    let s = bootstrapped("old");
    let (s, a) = tick_with(s, config("new"));
    assert_eq!(a, Action::Write(config("new")));
    assert_eq!(s.phase, Phase::Writing(config("new")));
}

#[test]
fn bootstrap_failure_is_fatal() {
    let (s, _) = Reconciler::start();
    let (s, a) = s.step(Event::RemoteFetched(Err(ReconcileError::AuthError)));
    assert_eq!(a, Action::Exit(ReconcileError::AuthError));
    assert_eq!(s.last_applied(), &None);
    let (_, a) = s.step(Event::Tick);
    assert_eq!(a, Action::Exit(ReconcileError::AuthError));
}

#[test]
fn successful_apply_updates_cache_then_no_op() {
    let s = bootstrapped("old");
    let (s, a) = tick_with(s, config("new"));
    assert_eq!(a, Action::Write(config("new")));
    let (s, a) = s.step(Event::Written(Ok(())));
    assert_eq!(a, Action::Reload);
    let (s, a) = s.step(Event::Reloaded(Ok(())));
    assert_eq!(a, Action::Wait(Note::Applied));
    assert_eq!(s.last_applied(), &Some(config("new")));
    let (s, a) = tick_with(s, config("new"));
    assert_eq!(a, Action::Wait(Note::NoDrift));
    assert_eq!(s.last_applied(), &Some(config("new")));
}

#[test]
fn unchanged_desired_state_is_stable_over_ticks() {
    let d1 = DesiredState { ports: vec![80, 443], address: "203.0.113.7".to_string() };
    let d2 = DesiredState { ports: vec![443, 80, 80], address: "203.0.113.7".to_string() };
    let s = bootstrapped(render(&d1).unwrap().as_str());
    let (s, a) = tick_with(s, render(&d2).unwrap());
    assert_eq!(a, Action::Wait(Note::NoDrift));
    let (_, a) = tick_with(s, render(&d1).unwrap());
    assert_eq!(a, Action::Wait(Note::NoDrift));
}

#[test]
fn write_failure_retries_same_content() {
    let s = bootstrapped("old");
    let (s, a1) = tick_with(s, config("new"));
    let (s, a) = s.step(Event::Written(Err(ReconcileError::ConnectError)));
    assert_eq!(a, Action::Wait(Note::WriteFailed(ReconcileError::ConnectError)));
    assert_eq!(s.last_applied(), &Some(config("old")));
    let (_, a2) = tick_with(s, config("new"));
    assert_eq!(a1, a2);
    assert_eq!(a2, Action::Write(config("new")));
}

#[test]
fn reload_failure_keeps_pre_apply_cache() {
    let s = bootstrapped("old");
    let before = s.last_applied().clone();
    let (s, _) = tick_with(s, config("new"));
    let (s, a) = s.step(Event::Written(Ok(())));
    assert_eq!(a, Action::Reload);
    let (s, a) = s.step(Event::Reloaded(Err(ReconcileError::RemoteExecError)));
    assert_eq!(a, Action::Wait(Note::ReloadUnconfirmed(ReconcileError::RemoteExecError)));
    assert_eq!(s.last_applied(), &before);
    assert_eq!(s.phase, Phase::Idle);
    let (_, a) = tick_with(s, config("new"));
    assert_eq!(a, Action::Write(config("new")));
}

#[test]
fn render_failure_skips_tick() {
    let s = bootstrapped("old");
    let (s, _) = s.step(Event::Tick);
    let (s, a) = s.step(Event::Rendered(Err(ReconcileError::UpstreamUnavailable)));
    assert_eq!(a, Action::Wait(Note::RenderFailed(ReconcileError::UpstreamUnavailable)));
    assert_eq!(s.phase, Phase::Idle);
    assert_eq!(s.last_applied(), &Some(config("old")));
}

#[test]
fn out_of_order_event_changes_nothing() {
    let s = bootstrapped("old");
    let copy = s.clone();
    let (s, a) = s.step(Event::Reloaded(Ok(())));
    assert_eq!(a, Action::Nothing);
    assert_eq!(s, copy);
}

#[test]
fn settings_defaults() {
    let s = ProxySettings::from_values(None, None, None, None);
    assert_eq!(s.secret_namespace, "external-proxy");
    assert_eq!(s.secret_name, "proxy-server-ssh-key");
    assert_eq!(s.proxy_host, "tiny.pizza");
    assert_eq!(s.proxy_user, "root");
}

#[test]
fn settings_given_values() {
    let s = ProxySettings::from_values(Some("ns".to_string()), None, Some("proxy.example".to_string()), Some("admin".to_string()));
    assert_eq!(s.secret_namespace, "ns");
    assert_eq!(s.secret_name, "proxy-server-ssh-key");
    assert_eq!(s.proxy_host, "proxy.example");
    assert_eq!(s.proxy_user, "admin");
}

#[test]
fn credential_from_secret() {
    let c = RemoteCredential::from_secret_entry(Some(b"KEY".to_vec())).unwrap();
    assert_eq!(c.private_key, b"KEY".to_vec());
    assert_eq!(RemoteCredential::from_secret_entry(None).unwrap_err(), ReconcileError::AuthError);
}
