use gitignore_templates::error::ServiceError;
use gitignore_templates::probe::{
    ConnectivityProbe, OFFLINE_PAUSE_MILLIS, OFFLINE_WARNING, PROBE_TIMEOUT_SECS, PROBE_URL,
};

#[test]
fn the_probe_has_its_fixed_settings() {
    assert_eq!(PROBE_URL, "https://github.com");
    assert_eq!(PROBE_TIMEOUT_SECS, 5);
    assert_eq!(OFFLINE_PAUSE_MILLIS, 3000);
    assert_eq!(
        OFFLINE_WARNING,
        "warning: you are offline. you will only be able to use cached templates which may be out of date"
    );
}

#[test]
fn a_new_probe_is_pending() {
    let probe = ConnectivityProbe::new();
    assert!(probe.is_pending());
}

#[test]
fn a_successful_status_means_online() {
    for status in [200u16, 204, 299] {
        let mut probe = ConnectivityProbe::new();
        let answer = probe.is_online(Some(status));
        assert!(answer.online);
        assert_eq!(answer.notice, None);
        assert_eq!(answer.checked(), Ok(()));
        assert!(!probe.is_pending());
    }
}

#[test]
fn another_status_means_offline() {
    for status in [0u16, 100, 199, 300, 301, 404, 500, u16::MAX] {
        let mut probe = ConnectivityProbe::new();
        let answer = probe.is_online(Some(status));
        assert!(!answer.online);
        assert!(answer.notice.is_some());
    }
}

#[test]
fn a_failed_request_means_offline_with_the_notice() {
    let mut probe = ConnectivityProbe::new();
    let answer = probe.is_online(None);
    assert!(!answer.online);
    let notice = answer.notice.as_ref().unwrap();
    assert_eq!(notice.warning, OFFLINE_WARNING);
    assert_eq!(notice.pause_millis, 3000);
    assert_eq!(answer.checked(), Err(ServiceError::NetworkUnavailable));
}

#[test]
fn the_first_answer_stays_when_the_network_comes_back() {
    let mut probe = ConnectivityProbe::new();
    assert!(!probe.is_online(None).online);
    let later = probe.is_online(Some(200));
    assert!(!later.online);
    assert_eq!(later.notice, None);
    assert!(!probe.is_online(Some(200)).online);
}

#[test]
fn the_first_answer_stays_when_the_network_goes_away() {
    let mut probe = ConnectivityProbe::new();
    assert!(probe.is_online(Some(200)).online);
    let later = probe.is_online(None);
    assert!(later.online);
    assert_eq!(later.notice, None);
    assert!(probe.is_online(Some(503)).online);
}
