use vstd::prelude::*;

use crate::loading_controller::{FALLBACK_HANDSHAKE_AFTER_MSEC, SPLASH_SCREEN_MIN_TTL_MSEC};

verus! {

// The fixed text of the script injected into the application webview on
// desktop platforms, around the values it embeds.
pub const DESKTOP_SCRIPT_HEAD: &'static str = "\n            (function() {\n                window.__cpe_shim_tauri_version = ";

pub const DESKTOP_SCRIPT_AFTER_VERSION: &'static str = ";\n                window.__cpe_shim_tauri_challenge = 'cpe';\n                \n                if (sessionStorage.getItem('TAURI_APP_FIRST_LOAD') === null) {\n                    sessionStorage.setItem('TAURI_APP_FIRST_LOAD', '1');\n                    return;\n                }\n\n                if (!!window.navigator.serviceWorker?.controller) {\n                    setTimeout(() => __TAURI__.event.emit('handshake', window.__cpe_shim_tauri_challenge), ";

pub const DESKTOP_SCRIPT_TAIL: &'static str = ");\n                }\n            })()\n        ";

// The fixed text of the script injected into the application webview on
// mobile platforms, around the values it embeds.

pub const MOBILE_SCRIPT_HEAD: &'static str = "\n                    (function() {\n                        window.__TAURI__.app.onBackButtonPress(() => undefined);\n                                                \n                        window.__cpe_shim_tauri_version = ";

pub const MOBILE_SCRIPT_AFTER_VERSION: &'static str = ";\n                        window.__cpe_shim_tauri_challenge = 'cpe';\n\n                        let hasConnectionIssue = false;\n\n                        if (sessionStorage.getItem('TAURI_APP_FIRST_LOAD') === null) {\n                            sessionStorage.setItem('TAURI_APP_FIRST_LOAD', '1');\n                        } else {\n                            hasConnectionIssue = true;\n\n                            if (!!window.navigator.serviceWorker?.controller) {\n                                setTimeout(() => __TAURI__.event.emit('handshake', window.__cpe_shim_tauri_challenge), ";

pub const MOBILE_SCRIPT_AFTER_FALLBACK: &'static str = ");\n                            }\n                        }\n\n                        const html = ";

pub const MOBILE_SCRIPT_AFTER_HTML: &'static str = ";\n\n                        document.addEventListener('DOMContentLoaded', () => {\n                            const splashElement = document.createElement('div');\n                            \n                            splashElement.id = 'inline-splash';\n                            splashElement.innerHTML = html;\n                            if (hasConnectionIssue) splashElement.classList.add('connection-issue');\n\n                            document.body.appendChild(splashElement);\n                        });\n\n                        const splashDelay = new Promise(r => setTimeout(r, ";

pub const MOBILE_SCRIPT_TAIL: &'static str = "));\n\n                        __TAURI__.event.listen('handshake', () => splashDelay.then(() => {\n                            const splashElement = document.getElementById('inline-splash');\n\n                            if (splashElement) document.body.removeChild(splashElement);\n                            sessionStorage.removeItem('TAURI_APP_FIRST_LOAD');\n                        }));\n                    })()\n                ";

/// The character of a decimal digit.
pub open spec fn digit_char(d: nat) -> char {
    if d == 0 {
        '0'
    } else if d == 1 {
        '1'
    } else if d == 2 {
        '2'
    } else if d == 3 {
        '3'
    } else if d == 4 {
        '4'
    } else if d == 5 {
        '5'
    } else if d == 6 {
        '6'
    } else if d == 7 {
        '7'
    } else if d == 8 {
        '8'
    } else {
        '9'
    }
}

/// The decimal notation of a number, without leading zeros.
pub open spec fn decimal(n: nat) -> Seq<char>
    decreases n,
{
    if n < 10 {
        seq![digit_char(n)]
    } else {
        decimal(n / 10).push(digit_char(n % 10))
    }
}

/// The text of a single decimal digit.
fn digit_text(d: u64) -> (res: &'static str)
    requires
        d < 10,
    ensures
        res@ == seq![digit_char(d as nat)],
{
    proof {
        reveal_strlit("0");
        reveal_strlit("1");
        reveal_strlit("2");
        reveal_strlit("3");
        reveal_strlit("4");
        reveal_strlit("5");
        reveal_strlit("6");
        reveal_strlit("7");
        reveal_strlit("8");
        reveal_strlit("9");
    }
    match d {
        0 => "0",
        1 => "1",
        2 => "2",
        3 => "3",
        4 => "4",
        5 => "5",
        6 => "6",
        7 => "7",
        8 => "8",
        _ => "9",
    }
}

/// The decimal notation of a number, as `Display` writes it.
pub fn decimal_text(n: u64) -> (res: String)
    ensures
        res@ == decimal(n as nat),
    decreases n,
{
    if n < 10 {
        digit_text(n).to_owned()
    } else {
        let leading = decimal_text(n / 10);
        leading.concat(digit_text(n % 10))
    }
}

/// The script injected into the application webview on desktop platforms: it
/// records the shell's version number and, when the application is reloaded
/// from its service worker, sends the handshake after a delay.
pub open spec fn desktop_script(version: u32) -> Seq<char> {
    DESKTOP_SCRIPT_HEAD@ + decimal(version as nat) + DESKTOP_SCRIPT_AFTER_VERSION@ + decimal(
        FALLBACK_HANDSHAKE_AFTER_MSEC as nat,
    ) + DESKTOP_SCRIPT_TAIL@
}

/// The script injected into the application webview on mobile platforms,
/// given the splash screen's markup as a JSON string literal: it also shows
/// the inline splash screen until the handshake and the minimum splash time
/// have passed.
pub open spec fn mobile_script(version: u32, splash_html_json: Seq<char>) -> Seq<char> {
    MOBILE_SCRIPT_HEAD@ + decimal(version as nat) + MOBILE_SCRIPT_AFTER_VERSION@ + decimal(
        FALLBACK_HANDSHAKE_AFTER_MSEC as nat,
    ) + MOBILE_SCRIPT_AFTER_FALLBACK@ + splash_html_json + MOBILE_SCRIPT_AFTER_HTML@ + decimal(
        SPLASH_SCREEN_MIN_TTL_MSEC as nat,
    ) + MOBILE_SCRIPT_TAIL@
}

/// The script for the application webview on desktop platforms, for the
/// shell's version number.
pub fn desktop_init_script(version: u32) -> (res: String)
    ensures
        res@ == desktop_script(version),
{
    let script = DESKTOP_SCRIPT_HEAD.to_owned();
    let script = script.concat(decimal_text(version as u64).as_str());
    let script = script.concat(DESKTOP_SCRIPT_AFTER_VERSION);
    let script = script.concat(decimal_text(FALLBACK_HANDSHAKE_AFTER_MSEC).as_str());
    script.concat(DESKTOP_SCRIPT_TAIL)
}

/// The script for the application webview on mobile platforms, for the
/// shell's version number and the splash screen's markup already written as a
/// JSON string literal.
pub fn mobile_init_script_with(version: u32, splash_html_json: &str) -> (res: String)
    ensures
        res@ == mobile_script(version, splash_html_json@),
{
    let script = MOBILE_SCRIPT_HEAD.to_owned();
    let script = script.concat(decimal_text(version as u64).as_str());
    let script = script.concat(MOBILE_SCRIPT_AFTER_VERSION);
    let script = script.concat(decimal_text(FALLBACK_HANDSHAKE_AFTER_MSEC).as_str());
    let script = script.concat(MOBILE_SCRIPT_AFTER_FALLBACK);
    let script = script.concat(splash_html_json);
    let script = script.concat(MOBILE_SCRIPT_AFTER_HTML);
    let script = script.concat(decimal_text(SPLASH_SCREEN_MIN_TTL_MSEC).as_str());
    script.concat(MOBILE_SCRIPT_TAIL)
}

/// A lower-case hexadecimal digit.
pub open spec fn hex_digit(d: nat) -> char {
    if d < 10 {
        digit_char(d)
    } else if d == 10 {
        'a'
    } else if d == 11 {
        'b'
    } else if d == 12 {
        'c'
    } else if d == 13 {
        'd'
    } else if d == 14 {
        'e'
    } else {
        'f'
    }
}

/// How one character is written inside a JSON string literal: a quote and a
/// backslash behind a backslash; backspace, tab, line feed, form feed and
/// carriage return as `\b`, `\t`, `\n`, `\f`, `\r`; every other character
/// below U+0020 as `\u00` and two lower-case hexadecimal digits; every other
/// character as itself.
pub open spec fn json_escaped_char(c: char) -> Seq<char> {
    if c == '"' {
        seq!['\\', '"']
    } else if c == '\\' {
        seq!['\\', '\\']
    } else if c == '\u{8}' {
        seq!['\\', 'b']
    } else if c == '\t' {
        seq!['\\', 't']
    } else if c == '\n' {
        seq!['\\', 'n']
    } else if c == '\u{c}' {
        seq!['\\', 'f']
    } else if c == '\r' {
        seq!['\\', 'r']
    } else if (c as nat) < 0x20 {
        seq!['\\', 'u', '0', '0', hex_digit((c as nat) / 16), hex_digit((c as nat) % 16)]
    } else {
        seq![c]
    }
}

/// The characters of a string, each written as inside a JSON string literal.
pub open spec fn json_escaped(text: Seq<char>) -> Seq<char>
    decreases text.len(),
{
    if text.len() == 0 {
        Seq::empty()
    } else {
        json_escaped(text.drop_last()) + json_escaped_char(text.last())
    }
}

/// What `serde_json::to_string` writes for a string: a quote, each character
/// escaped, a quote.
pub open spec fn json_string_literal(text: Seq<char>) -> Seq<char> {
    seq!['"'] + json_escaped(text) + seq!['"']
}

/// Writes a string as a JSON string literal with `serde_json::to_string`,
/// which writes into a `Vec` and so reports no error for a string; the
/// contract claims the escaping of serde_json's `format_escaped_str`.
#[verifier::external_body]
fn encode_json_string(text: &str) -> (res: String)
    ensures
        res@ == json_string_literal(text@),
{
    serde_json::to_string(text).unwrap_or_default()
}

/// The script for the application webview on mobile platforms, for the
/// shell's version number and the splash screen's markup, which it embeds as
/// a JSON string literal.
pub fn mobile_init_script(version: u32, splash_html: &str) -> (res: String)
    ensures
        res@ == mobile_script(version, json_string_literal(splash_html@)),
{
    let encoded = encode_json_string(splash_html);
    mobile_init_script_with(version, encoded.as_str())
}

/// Decimal notation reads back to the number it was written for.
pub open spec fn decimal_value(digits: Seq<char>) -> int
    decreases digits.len(),
{
    if digits.len() == 0 {
        0
    } else {
        decimal_value(digits.drop_last()) * 10 + digit_value(digits.last())
    }
}

/// The value of a digit character.
pub open spec fn digit_value(c: char) -> int {
    if c == '0' {
        0
    } else if c == '1' {
        1
    } else if c == '2' {
        2
    } else if c == '3' {
        3
    } else if c == '4' {
        4
    } else if c == '5' {
        5
    } else if c == '6' {
        6
    } else if c == '7' {
        7
    } else if c == '8' {
        8
    } else {
        9
    }
}

/// The decimal notation of a number reads back as that number, so the version
/// number the scripts embed is the shell's.
pub proof fn lemma_decimal_reads_back(n: nat)
    ensures
        decimal_value(decimal(n)) == n,
        decimal(n).len() >= 1,
    decreases n,
{
    if n >= 10 {
        lemma_decimal_reads_back(n / 10);
        assert(decimal(n).drop_last() =~= decimal(n / 10));
        assert(decimal(n).last() == digit_char(n % 10));
        assert(digit_value(digit_char(n % 10)) == n % 10);
        assert(decimal_value(decimal(n)) == decimal_value(decimal(n / 10)) * 10 + digit_value(
            digit_char(n % 10),
        ));
        assert(n == (n / 10) * 10 + n % 10);
    } else {
        assert(decimal(n).drop_last() =~= Seq::<char>::empty());
        assert(decimal(n).last() == digit_char(n));
        assert(digit_value(digit_char(n)) == n);
        assert(decimal_value(decimal(n)) == decimal_value(Seq::<char>::empty()) * 10
            + digit_value(digit_char(n)));
    }
}

/// Whether a character is a decimal digit.
pub open spec fn is_decimal_digit(c: char) -> bool {
    '0' <= c && c <= '9'
}

/// The decimal notation of a number is made of digits only, so it ends where
/// the text around it begins.
pub proof fn lemma_decimal_is_digits(n: nat)
    ensures
        forall|i: int| 0 <= i < decimal(n).len() ==> is_decimal_digit(#[trigger] decimal(n)[i]),
    decreases n,
{
    if n >= 10 {
        lemma_decimal_is_digits(n / 10);
        let d = decimal(n);
        assert(is_decimal_digit(digit_char(n % 10)));
        assert forall|i: int| 0 <= i < d.len() implies is_decimal_digit(#[trigger] d[i]) by {
            if i < d.len() - 1 {
                assert(d[i] == decimal(n / 10)[i]);
            }
        }
    } else {
        assert(is_decimal_digit(digit_char(n)));
    }
}

/// The script for the desktop application webview is its fixed text with
/// exactly two numbers written into it: first the shell's version number, in
/// digits that read back as that number, then the fallback handshake delay
/// of 5000 milliseconds.
pub proof fn lemma_desktop_script_layout(version: u32)
    ensures
        desktop_script(version) == DESKTOP_SCRIPT_HEAD@ + decimal(version as nat)
            + DESKTOP_SCRIPT_AFTER_VERSION@ + "5000"@ + DESKTOP_SCRIPT_TAIL@,
        decimal_value(decimal(version as nat)) == version,
        forall|i: int|
            0 <= i < decimal(version as nat).len() ==> is_decimal_digit(
                #[trigger] decimal(version as nat)[i],
            ),
{
    lemma_decimal_reads_back(version as nat);
    lemma_decimal_is_digits(version as nat);
    lemma_decimal_5000();
}

/// The script for the mobile application webview is its fixed text with the
/// shell's version number (in digits that read back as that number), the
/// fallback handshake delay of 5000 milliseconds, the splash markup literal
/// unchanged, and the minimum splash time of 500 milliseconds written into
/// it, in that order; the two delays do not depend on the version or the
/// markup.
pub proof fn lemma_mobile_script_layout(version: u32, splash_html_json: Seq<char>)
    ensures
        mobile_script(version, splash_html_json) == MOBILE_SCRIPT_HEAD@ + decimal(version as nat)
            + MOBILE_SCRIPT_AFTER_VERSION@ + "5000"@ + MOBILE_SCRIPT_AFTER_FALLBACK@
            + splash_html_json + MOBILE_SCRIPT_AFTER_HTML@ + "500"@ + MOBILE_SCRIPT_TAIL@,
        decimal_value(decimal(version as nat)) == version,
        forall|i: int|
            0 <= i < decimal(version as nat).len() ==> is_decimal_digit(
                #[trigger] decimal(version as nat)[i],
            ),
{
    lemma_decimal_reads_back(version as nat);
    lemma_decimal_is_digits(version as nat);
    lemma_decimal_5000();
    lemma_decimal_500();
}

proof fn lemma_decimal_5000()
    ensures
        decimal(5000) == "5000"@,
{
    reveal_strlit("5000");
    reveal_with_fuel(decimal, 5);
    assert(decimal(5000) =~= "5000"@);
}

proof fn lemma_decimal_500()
    ensures
        decimal(500) == "500"@,
{
    reveal_strlit("500");
    reveal_with_fuel(decimal, 4);
    assert(decimal(500) =~= "500"@);
}

} // verus!
