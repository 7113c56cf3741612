use cloudpilot_shim::init_script::{
    decimal_text, desktop_init_script, mobile_init_script, mobile_init_script_with,
};

fn desktop_reference(version: u32) -> String {
    format!("
            (function() {{
                window.__cpe_shim_tauri_version = {};
                window.__cpe_shim_tauri_challenge = 'cpe';
                
                if (sessionStorage.getItem('TAURI_APP_FIRST_LOAD') === null) {{
                    sessionStorage.setItem('TAURI_APP_FIRST_LOAD', '1');
                    return;
                }}

                if (!!window.navigator.serviceWorker?.controller) {{
                    setTimeout(() => __TAURI__.event.emit('handshake', window.__cpe_shim_tauri_challenge), {});
                }}
            }})()
        ", version, 5000)
}

fn mobile_reference(version: u32, html_json: &str) -> String {
    format!(
        "
                    (function() {{
                        window.__TAURI__.app.onBackButtonPress(() => undefined);
                                                
                        window.__cpe_shim_tauri_version = {};
                        window.__cpe_shim_tauri_challenge = 'cpe';

                        let hasConnectionIssue = false;

                        if (sessionStorage.getItem('TAURI_APP_FIRST_LOAD') === null) {{
                            sessionStorage.setItem('TAURI_APP_FIRST_LOAD', '1');
                        }} else {{
                            hasConnectionIssue = true;

                            if (!!window.navigator.serviceWorker?.controller) {{
                                setTimeout(() => __TAURI__.event.emit('handshake', window.__cpe_shim_tauri_challenge), {});
                            }}
                        }}

                        const html = {};

                        document.addEventListener('DOMContentLoaded', () => {{
                            const splashElement = document.createElement('div');
                            
                            splashElement.id = 'inline-splash';
                            splashElement.innerHTML = html;
                            if (hasConnectionIssue) splashElement.classList.add('connection-issue');

                            document.body.appendChild(splashElement);
                        }});

                        const splashDelay = new Promise(r => setTimeout(r, {}));

                        __TAURI__.event.listen('handshake', () => splashDelay.then(() => {{
                            const splashElement = document.getElementById('inline-splash');

                            if (splashElement) document.body.removeChild(splashElement);
                            sessionStorage.removeItem('TAURI_APP_FIRST_LOAD');
                        }}));
                    }})()
                ",
        version, 5000, html_json, 500
    )
}

#[test]
fn decimal_matches_display() {
    for n in [0u64, 7, 9, 10, 99, 100, 5000, 65_795, u32::MAX as u64, u64::MAX] {
        assert_eq!(decimal_text(n), n.to_string());
    }
}

#[test]
fn desktop_script_embeds_version_and_fallback_delay() {
    for version in [0u32, 66_051, u32::MAX] {
        assert_eq!(desktop_init_script(version), desktop_reference(version));
    }
    assert!(desktop_init_script(66_051).contains("window.__cpe_shim_tauri_version = 66051;"));
}

#[test]
fn mobile_script_with_encoded_markup() {
    let json = "\"<p>hi</p>\"";
    assert_eq!(mobile_init_script_with(131_072, json), mobile_reference(131_072, json));
}

#[test]
fn mobile_script_encodes_markup_as_json() {
    let html = "<div class=\"splash\">\n\tLoading\\</div>";
    let encoded = serde_json::to_string(html).unwrap();
    assert_eq!(encoded, "\"<div class=\\\"splash\\\">\\n\\tLoading\\\\</div>\"");
    assert_eq!(mobile_init_script(258, html), mobile_reference(258, &encoded));
}

#[test]
fn mobile_script_escapes_control_characters() {
    let html = "a\u{1}b\u{1f}c\u{8}\u{c}\r\u{7f}é";
    let expected = "\"a\\u0001b\\u001fc\\b\\f\\r\u{7f}é\"";
    assert_eq!(serde_json::to_string(html).unwrap(), expected);
    assert_eq!(mobile_init_script(1, html), mobile_reference(1, expected));
}
