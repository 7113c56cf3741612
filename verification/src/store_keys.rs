use vstd::prelude::*;

use crate::app_channel::AppChannel;

verus! {

/// The file of the persistent key-value store.
pub const STORE_NAME: &'static str = "store.json";

/// Whether the service worker of the preview channel is installed.
pub const KEY_WORKER_INSTALLED_PREVIEW: &'static str = "workerInstalledPreview";

/// Whether the service worker of the stable channel is installed.
pub const KEY_WORKER_INSTALLED_STABLE: &'static str = "workerInstalledStable";

/// The number of the channel the application is loaded from.
pub const KEY_APP_CHANNEL: &'static str = "appChannel";

/// The store key that records whether the service worker of a channel is
/// installed.
pub open spec fn worker_installed_key(channel: AppChannel) -> Seq<char> {
    match channel {
        AppChannel::Preview => KEY_WORKER_INSTALLED_PREVIEW@,
        AppChannel::Stable => KEY_WORKER_INSTALLED_STABLE@,
    }
}

/// The store key that records whether the service worker of a channel is
/// installed.
pub fn key_worker_installed(channel: AppChannel) -> (res: &'static str)
    ensures
        res@ == worker_installed_key(channel),
{
    match channel {
        AppChannel::Preview => KEY_WORKER_INSTALLED_PREVIEW,
        AppChannel::Stable => KEY_WORKER_INSTALLED_STABLE,
    }
}

/// Each channel records its service worker under a key of its own, and none
/// of them is the key of the selected channel.
pub proof fn lemma_store_keys_distinct(a: AppChannel, b: AppChannel)
    ensures
        a != b ==> worker_installed_key(a) != worker_installed_key(b),
        worker_installed_key(a) != KEY_APP_CHANNEL@,
{
    reveal_strlit("workerInstalledPreview");
    reveal_strlit("workerInstalledStable");
    reveal_strlit("appChannel");
    assert(KEY_WORKER_INSTALLED_PREVIEW@[15] != KEY_WORKER_INSTALLED_STABLE@[15]);
    assert(worker_installed_key(a).len() != KEY_APP_CHANNEL@.len());
}

} // verus!
