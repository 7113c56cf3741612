use cloudpilot_shim::app_channel::AppChannel;
use cloudpilot_shim::store_keys::{
    key_worker_installed, KEY_APP_CHANNEL, KEY_WORKER_INSTALLED_PREVIEW,
    KEY_WORKER_INSTALLED_STABLE, STORE_NAME,
};
use cloudpilot_shim::url::{get_app_url, get_dev_app_url};

#[test]
fn release_urls() {
    assert_eq!(
        get_app_url(AppChannel::Preview),
        "https://cloudpilot-emu.github.io/app-preview"
    );
    assert_eq!(get_app_url(AppChannel::Stable), "https://cloudpilot-emu.github.io/app");
    assert_ne!(get_app_url(AppChannel::Preview), get_app_url(AppChannel::Stable));
}

#[test]
fn dev_urls_default_server() {
    assert_eq!(get_dev_app_url(None, AppChannel::Preview), "http://localhost:4200?preview");
    assert_eq!(get_dev_app_url(None, AppChannel::Stable), "http://localhost:4200?stable");
}

#[test]
fn dev_urls_configured_server() {
    assert_eq!(
        get_dev_app_url(Some("http://10.0.0.2:8080"), AppChannel::Stable),
        "http://10.0.0.2:8080?stable"
    );
    assert_eq!(get_dev_app_url(Some(""), AppChannel::Preview), "?preview");
}

#[test]
fn store_keys() {
    assert_eq!(STORE_NAME, "store.json");
    assert_eq!(key_worker_installed(AppChannel::Preview), "workerInstalledPreview");
    assert_eq!(key_worker_installed(AppChannel::Stable), "workerInstalledStable");
    assert_eq!(key_worker_installed(AppChannel::Preview), KEY_WORKER_INSTALLED_PREVIEW);
    assert_eq!(key_worker_installed(AppChannel::Stable), KEY_WORKER_INSTALLED_STABLE);
    assert_ne!(key_worker_installed(AppChannel::Preview), KEY_APP_CHANNEL);
    assert_ne!(key_worker_installed(AppChannel::Stable), KEY_APP_CHANNEL);
    assert_eq!(KEY_APP_CHANNEL, "appChannel");
}
