use vstd::prelude::*;

use crate::app_channel::{channel_number, channel_of_number, AppChannel};

verus! {

/// The label of the splash-screen webview.
pub const LABEL_SPLASH: &'static str = "splash";

/// The label of the application webview.
pub const LABEL_APP: &'static str = "app";

/// Where the splash screen is served from.
pub const SPLASHSCREEN_URL: &'static str = "/splashscreen/index.html";

/// How long to wait for the application's handshake before loading again.
pub const TIMEOUT_SECONDS: u64 = 10;

/// How long the splash screen stays up at least.
pub const SPLASH_SCREEN_MIN_TTL_MSEC: u64 = 500;

/// After how long a reloaded application that runs from its service worker
/// sends the handshake by itself.
pub const FALLBACK_HANDSHAKE_AFTER_MSEC: u64 = 5000;

/// Tracks whether a load of the application webview is in progress: at most
/// one load runs at a time.
pub struct LoadingController {
    is_loading: bool,
}

impl Default for LoadingController {
    /// No load is in progress.
    fn default() -> (res: LoadingController)
        ensures
            !res.loading(),
    {
        LoadingController { is_loading: false }
    }
}

impl LoadingController {
    /// Whether a load is in progress.
    pub closed spec fn loading(&self) -> bool {
        self.is_loading
    }

    /// Whether a load is in progress.
    pub fn is_loading(&self) -> (res: bool)
        ensures
            res == self.loading(),
    {
        self.is_loading
    }

    /// Marks a load as started; a load may only start when none is in
    /// progress.
    pub fn begin_load(&mut self)
        requires
            !old(self).loading(),
        ensures
            final(self).loading(),
    {
        self.is_loading = true;
    }

    /// Marks the load in progress as finished.
    pub fn end_load(&mut self)
        ensures
            !final(self).loading(),
    {
        self.is_loading = false;
    }
}

/// A controller with no load in progress is in one state only, so that a
/// finished load leaves it exactly as it was before the load began.
pub proof fn lemma_idle_controllers_equal(a: LoadingController, b: LoadingController)
    requires
        !a.loading(),
        !b.loading(),
    ensures
        a == b,
{
}

/// The channel read from the store: the stored number if it names a channel,
/// else the stable channel.
pub open spec fn stored_channel(stored: Option<i64>) -> AppChannel {
    match stored {
        Some(n) => match channel_of_number(n) {
            Some(channel) => channel,
            None => AppChannel::Stable,
        },
        None => AppChannel::Stable,
    }
}

/// The channel to load, given the number stored under the channel key, if the
/// store holds an integer that fits an `i64` there.
pub fn app_channel_from_store(stored: Option<i64>) -> (res: AppChannel)
    ensures
        res == stored_channel(stored),
{
    match stored {
        Some(n) => match AppChannel::from_i64(n) {
            Some(channel) => channel,
            None => AppChannel::Stable,
        },
        None => AppChannel::Stable,
    }
}

/// Switching to a channel stores its number, and reading the store back gives
/// that channel; with nothing usable stored the stable channel is loaded.
pub proof fn lemma_channel_store_round_trip(channel: AppChannel, n: i64)
    ensures
        stored_channel(Some(channel_number(channel))) == channel,
        stored_channel(None) == AppChannel::Stable,
        n != 0 && n != 1 ==> stored_channel(Some(n)) == AppChannel::Stable,
{
}

/// The version number handed to the application: major, minor and patch
/// packed as `major << 16 | minor << 8 | patch`, cut to 32 bits.
pub open spec fn version_code(major: u64, minor: u64, patch: u64) -> u32 {
    ((major << 16u64) | (minor << 8u64) | patch) as u32
}

/// The version number handed to the application, packed from the package's
/// semantic version.
pub fn get_version(major: u64, minor: u64, patch: u64) -> (res: u32)
    ensures
        res == version_code(major, minor, patch),
{
    #[verifier::truncate]
    (((major << 16u64) | (minor << 8u64) | patch) as u32)
}

/// For a version whose minor and patch numbers are below 256 and whose major
/// number is below 65536, the version number is
/// `major * 65536 + minor * 256 + patch`, and each part can be read back from
/// it.
pub proof fn lemma_version_code_packs(major: u64, minor: u64, patch: u64)
    requires
        major < 0x10000,
        minor < 0x100,
        patch < 0x100,
    ensures
        version_code(major, minor, patch) == major * 0x10000 + minor * 0x100 + patch,
        version_code(major, minor, patch) >> 16u32 == major,
        (version_code(major, minor, patch) >> 8u32) & 0xffu32 == minor,
        version_code(major, minor, patch) & 0xffu32 == patch,
{
    assert(((major << 16u64) | (minor << 8u64) | patch) as u32 == major * 0x10000 + minor
        * 0x100 + patch) by (bit_vector)
        requires
            major < 0x10000,
            minor < 0x100,
            patch < 0x100,
    ;
    let v: u32 = version_code(major, minor, patch);
    assert(v >> 16u32 == major && (v >> 8u32) & 0xffu32 == minor && v & 0xffu32 == patch)
        by (bit_vector)
        requires
            v == major * 0x10000 + minor * 0x100 + patch,
            major < 0x10000,
            minor < 0x100,
            patch < 0x100,
    ;
}

/// How long to keep the splash screen up once the handshake came in, given
/// how long the load has taken, both in nanoseconds: none if the elapsed time
/// in whole milliseconds, cut to 64 bits, is at least the minimum; else the
/// rest of the minimum, or zero where the elapsed time exceeds it.
pub open spec fn splash_hold(elapsed_nanos: u128) -> Option<u64> {
    let min_nanos: int = SPLASH_SCREEN_MIN_TTL_MSEC * 1_000_000;
    if ((elapsed_nanos / 1_000_000) as u64) < SPLASH_SCREEN_MIN_TTL_MSEC {
        if elapsed_nanos < min_nanos {
            Some((min_nanos - elapsed_nanos) as u64)
        } else {
            Some(0)
        }
    } else {
        None
    }
}

/// How long, in nanoseconds, the splash screen has to stay up after the
/// handshake, given the time in nanoseconds since the load began; `None`
/// when the application can be shown at once.
pub fn splash_hold_nanos(elapsed_nanos: u128) -> (res: Option<u64>)
    ensures
        res == splash_hold(elapsed_nanos),
{
    let elapsed_millis: u128 = elapsed_nanos / 1_000_000;
    #[verifier::truncate]
    let cut_millis: u64 = elapsed_millis as u64;
    let min_nanos: u128 = SPLASH_SCREEN_MIN_TTL_MSEC as u128 * 1_000_000;
    if cut_millis < SPLASH_SCREEN_MIN_TTL_MSEC {
        if elapsed_nanos < min_nanos {
            let rest: u128 = min_nanos - elapsed_nanos;
            Some(rest as u64)
        } else {
            Some(0)
        }
    } else {
        None
    }
}

/// The splash screen is up for at least the minimum time: a load that took
/// less than it is held for exactly the rest, and one that took longer (short
/// of 2^64 milliseconds) is not held at all.
pub proof fn lemma_splash_minimum_time(elapsed_nanos: u128)
    ensures
        elapsed_nanos < 500_000_000 ==> splash_hold(elapsed_nanos) is Some && elapsed_nanos
            + splash_hold(elapsed_nanos)->0 == 500_000_000,
        500_000_000 <= elapsed_nanos < 0x1_0000_0000_0000_0000 * 1_000_000 ==> splash_hold(
            elapsed_nanos,
        ) is None,
{
    let m: u128 = elapsed_nanos / 1_000_000;
    if elapsed_nanos < 0x1_0000_0000_0000_0000 * 1_000_000 {
        assert(m < 0x1_0000_0000_0000_0000);
        assert(m as u64 == m) by (bit_vector)
            requires
                m < 0x1_0000_0000_0000_0000,
        ;
    }
}

/// What ends a wait for the application's handshake.
#[derive(Clone, Copy, Debug, PartialEq, Eq, Structural)]
pub enum WaitEvent {
    /// The handshake came in.
    Handshake,
    /// No handshake came in within the timeout.
    Timeout,
    /// The handshake channel was closed.
    Closed,
}

/// What to do after a wait for the handshake.
#[derive(Clone, Copy, Debug, PartialEq, Eq, Structural)]
pub enum WaitAction {
    /// Stop waiting and reveal the application.
    Finish,
    /// Mark the connection issue, load the application again and keep waiting.
    Renavigate,
    /// Give up: the channel cannot close while the load waits on it.
    Abort,
}

/// The action that follows a wait event.
pub open spec fn wait_action(event: WaitEvent) -> WaitAction {
    match event {
        WaitEvent::Handshake => WaitAction::Finish,
        WaitEvent::Timeout => WaitAction::Renavigate,
        WaitEvent::Closed => WaitAction::Abort,
    }
}

/// The action that follows a wait for the application's handshake.
pub fn wait_step(event: WaitEvent) -> (res: WaitAction)
    ensures
        res == wait_action(event),
{
    match event {
        WaitEvent::Handshake => WaitAction::Finish,
        WaitEvent::Timeout => WaitAction::Renavigate,
        WaitEvent::Closed => WaitAction::Abort,
    }
}

/// Whether a release build opens the developer tools, given the value the
/// build was configured with, if any: only a non-empty value does.
pub fn enable_dev_tools(configured: Option<&str>) -> (res: bool)
    ensures
        res == match configured {
            Some(value) => value@.len() > 0,
            None => false,
        },
{
    if let Some(value) = configured {
        !value.is_empty()
    } else {
        false
    }
}

} // verus!
