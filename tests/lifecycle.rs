use bmc_optimizer::addr::{Addr, Proto, SockAddrV4};
use bmc_optimizer::capture::{
    step, AttachAction, AttachError, AttachEvent, AttachState, BmcOptimizerModule,
    CaptureSession, DEFAULT_ENABLED, MODULE_NAME,
};
use bmc_optimizer::config::{Config, ModuleConfig};
use bmc_optimizer::event::{BufferIndex, NetworkEvent};
use bmc_optimizer::translate::Payload;

fn send(len: u16) -> NetworkEvent {
    NetworkEvent::Send {
        src: Addr::V4(SockAddrV4 { ip: 0x0A00_0001, port: 40000 }),
        dst: Addr::V4(SockAddrV4 { ip: 0x0A00_0002, port: 443 }),
        data: BufferIndex { start: 0, len },
        data_len: 1460,
        proto: Proto::TCP,
    }
}

fn attached(interface: &str) -> CaptureSession {
    let (mut s, first) = BmcOptimizerModule.init_state(&Config::new(interface.to_string()));
    assert_eq!(first, AttachAction::ProvisionQdisc);
    assert_eq!(s.handle(AttachEvent::Succeeded), AttachAction::LoadImage);
    assert_eq!(s.handle(AttachEvent::Succeeded), AttachAction::AttachHook);
    assert_eq!(s.handle(AttachEvent::Succeeded), AttachAction::StartProgram);
    assert_eq!(s.handle(AttachEvent::Succeeded), AttachAction::Ready);
    assert_eq!(s.state(), AttachState::Attached);
    s
}

#[test]
fn config_defaults_interface() {
    let c = Config::try_from(&ModuleConfig::new()).unwrap();
    assert_eq!(c.interface(), "enp1s0");
}

#[test]
fn config_takes_interface_option() {
    let mut raw = ModuleConfig::new();
    raw.insert("other".to_string(), "x".to_string());
    raw.insert("interface".to_string(), "eth0".to_string());
    assert_eq!(Config::try_from(&raw).unwrap().interface(), "eth0");
    raw.insert("interface".to_string(), "wlan1".to_string());
    assert_eq!(Config::try_from(&raw).unwrap().interface(), "wlan1");
    assert_eq!(raw.with_default(&"missing".to_string(), "d".to_string()), "d");
    assert_eq!(raw.with_default(&"other".to_string(), "d".to_string()), "x");
}

#[test]
fn module_constants() {
    assert_eq!(MODULE_NAME, "bmc-optimizer");
    assert!(DEFAULT_ENABLED);
}

#[test]
fn qdisc_failure_is_not_fatal() {
    let (mut s, _) = BmcOptimizerModule.init_state(&Config::new("lo".to_string()));
    assert_eq!(s.handle(AttachEvent::Failed), AttachAction::LoadImage);
    assert_eq!(s.state(), AttachState::LoadingImage);
}

#[test]
fn image_load_failure_aborts() {
    let (mut s, _) = BmcOptimizerModule.init_state(&Config::new("lo".to_string()));
    s.handle(AttachEvent::Succeeded);
    assert_eq!(s.handle(AttachEvent::Failed), AttachAction::Abort(AttachError::ImageLoad));
    assert_eq!(s.state(), AttachState::Failed(AttachError::ImageLoad));
}

#[test]
fn missing_interface_attach_fails_and_emits_nothing() {
    let (mut s, _) = BmcOptimizerModule.init_state(&Config::new("no-such-if0".to_string()));
    assert_eq!(s.interface(), "no-such-if0");
    s.handle(AttachEvent::Failed);
    s.handle(AttachEvent::Succeeded);
    assert_eq!(s.handle(AttachEvent::Failed), AttachAction::Abort(AttachError::HookAttach));
    assert_eq!(s.state(), AttachState::Failed(AttachError::HookAttach));
    for e in [AttachEvent::Begin, AttachEvent::Succeeded, AttachEvent::Teardown] {
        assert_eq!(s.handle(e), AttachAction::Idle);
    }
    assert_eq!(s.deliver(&send(4), &[0u8; 8]), None);
    assert_eq!(s.emitted(), 0);
    assert_eq!(s.dropped(), 0);
}

#[test]
fn start_failure_aborts() {
    let (mut s, _) = BmcOptimizerModule.init_state(&Config::new("lo".to_string()));
    s.handle(AttachEvent::Succeeded);
    s.handle(AttachEvent::Succeeded);
    s.handle(AttachEvent::Succeeded);
    assert_eq!(s.handle(AttachEvent::Failed), AttachAction::Abort(AttachError::Start));
}

#[test]
fn attached_session_counts_emitted_and_dropped() {
    let mut s = attached("eth0");
    let p = s.deliver(&send(8), &[0u8; 8]);
    assert!(matches!(p, Some(Payload::Send { len: 1460, is_tcp: true, .. })));
    assert_eq!(s.deliver(&send(1460), &[0u8; 8]), None);
    assert_eq!(s.emitted(), 1);
    assert_eq!(s.dropped(), 1);
}

#[test]
fn teardown_releases_once() {
    let mut s = attached("eth0");
    assert_eq!(s.handle(AttachEvent::Teardown), AttachAction::Release);
    assert_eq!(s.state(), AttachState::Detached);
    assert_eq!(s.handle(AttachEvent::Teardown), AttachAction::Idle);
    assert_eq!(s.deliver(&send(0), &[]), None);
}

#[test]
fn teardown_mid_attach_releases() {
    assert_eq!(
        step(AttachState::AttachingHook, AttachEvent::Teardown),
        (AttachState::Detached, AttachAction::Release)
    );
    assert_eq!(
        step(AttachState::Unattached, AttachEvent::Teardown),
        (AttachState::Unattached, AttachAction::Idle)
    );
}

#[test]
fn unattached_session_ignores_records() {
    let mut s = CaptureSession::new(&Config::new("eth0".to_string()));
    assert_eq!(s.state(), AttachState::Unattached);
    assert_eq!(s.deliver(&send(0), &[]), None);
    assert_eq!(s.emitted(), 0);
}
