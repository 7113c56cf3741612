use vstd::prelude::*;

use crate::app_channel::{channel_name, AppChannel};

verus! {

/// Where a release build loads the application of a channel from.
pub open spec fn app_url(channel: AppChannel) -> Seq<char> {
    match channel {
        AppChannel::Preview => "https://cloudpilot-emu.github.io/app-preview"@,
        AppChannel::Stable => "https://cloudpilot-emu.github.io/app"@,
    }
}

/// The development server that a development build uses when none is given.
pub open spec fn default_dev_url() -> Seq<char> {
    "http://localhost:4200"@
}

/// Where a development build loads the application of a channel from: the
/// development server, a `?` and the channel's name.
pub open spec fn dev_app_url(dev_url: Option<Seq<char>>, channel: AppChannel) -> Seq<char> {
    let base = match dev_url {
        Some(url) => url,
        None => default_dev_url(),
    };
    base + "?"@ + channel_name(channel)
}

/// The address of the application of a channel in a release build.
pub fn get_app_url(channel: AppChannel) -> (res: String)
    ensures
        res@ == app_url(channel),
{
    match channel {
        AppChannel::Preview => "https://cloudpilot-emu.github.io/app-preview".to_owned(),
        AppChannel::Stable => "https://cloudpilot-emu.github.io/app".to_owned(),
    }
}

/// The address of the application of a channel in a development build, where
/// `dev_url` is the development server the build was configured with, if any.
pub fn get_dev_app_url(dev_url: Option<&str>, channel: AppChannel) -> (res: String)
    ensures
        res@ == dev_app_url(
            match dev_url {
                Some(url) => Some(url@),
                None => None,
            },
            channel,
        ),
{
    let base: String = match dev_url {
        Some(url) => url.to_owned(),
        None => "http://localhost:4200".to_owned(),
    };
    let name = channel.to_string();
    base.concat("?").concat(name.as_str())
}

/// The two channels are loaded from different addresses, in release builds
/// and in development builds alike.
pub proof fn lemma_app_urls_distinct(dev_url: Option<Seq<char>>)
    ensures
        app_url(AppChannel::Preview) != app_url(AppChannel::Stable),
        dev_app_url(dev_url, AppChannel::Preview) != dev_app_url(dev_url, AppChannel::Stable),
{
    reveal_strlit("https://cloudpilot-emu.github.io/app-preview");
    reveal_strlit("https://cloudpilot-emu.github.io/app");
    reveal_strlit("preview");
    reveal_strlit("stable");
    assert(app_url(AppChannel::Preview).len() != app_url(AppChannel::Stable).len());
    assert(dev_app_url(dev_url, AppChannel::Preview).len() != dev_app_url(dev_url, AppChannel::Stable).len());
}

/// A development build loads from the configured server whenever one is
/// given, and from `http://localhost:4200` otherwise, followed by `?` and the
/// channel's name.
pub proof fn lemma_dev_app_url_uses_configured_server(url: Seq<char>)
    ensures
        dev_app_url(Some(url), AppChannel::Preview) == url + "?preview"@,
        dev_app_url(Some(url), AppChannel::Stable) == url + "?stable"@,
        dev_app_url(None, AppChannel::Preview) == "http://localhost:4200?preview"@,
        dev_app_url(None, AppChannel::Stable) == "http://localhost:4200?stable"@,
{
    reveal_strlit("?");
    reveal_strlit("preview");
    reveal_strlit("stable");
    reveal_strlit("?preview");
    reveal_strlit("?stable");
    reveal_strlit("http://localhost:4200");
    reveal_strlit("http://localhost:4200?preview");
    reveal_strlit("http://localhost:4200?stable");
    assert(url + "?"@ + "preview"@ =~= url + "?preview"@);
    assert(url + "?"@ + "stable"@ =~= url + "?stable"@);
    assert("http://localhost:4200"@ + "?"@ + "preview"@ =~= "http://localhost:4200?preview"@);
    assert("http://localhost:4200"@ + "?"@ + "stable"@ =~= "http://localhost:4200?stable"@);
}

} // verus!
