use vstd::prelude::*;
use vstd::std_specs::convert::IntoSpec;

verus! {

/// The release channel the application is loaded from.
#[derive(Clone, Copy, Debug, PartialEq, Eq, Structural)]
pub enum AppChannel {
    Preview,
    Stable,
}

/// The number under which a channel is persisted.
pub open spec fn channel_number(channel: AppChannel) -> i64 {
    match channel {
        AppChannel::Preview => 0,
        AppChannel::Stable => 1,
    }
}

/// The channel persisted under a number, if any.
pub open spec fn channel_of_number(value: i64) -> Option<AppChannel> {
    if value == 0 {
        Some(AppChannel::Preview)
    } else if value == 1 {
        Some(AppChannel::Stable)
    } else {
        None
    }
}

/// The lower-case name of a channel.
pub open spec fn channel_name(channel: AppChannel) -> Seq<char> {
    match channel {
        AppChannel::Preview => "preview"@,
        AppChannel::Stable => "stable"@,
    }
}

/// `From::from` of a type into itself (`impl<T> From<T> for T` in core):
/// returns its argument unchanged.
pub assume_specification<V>[ <V as From<V>>::from ](t: V) -> (res: V)
    ensures
        res == t,
;

/// `From::from` of a `u8` into an `i64`: the same number.
pub assume_specification[ <i64 as From<u8>>::from ](small: u8) -> (res: i64)
    ensures
        res == small,
;

impl AppChannel {
    /// Reads a channel from any value that converts into an `i64`: `0` is the
    /// preview channel, `1` the stable channel, every other number none. The
    /// number is the one the value's `Into<i64>` gives.
    pub fn from_number<T: Into<i64>>(value: T) -> (res: Option<AppChannel>)
        ensures
            exists|n: i64| call_ensures(T::into, (value,), n) && res == channel_of_number(n),
            T::obeys_into_spec() ==> res == channel_of_number(value.into_spec()),
    {
        let n: i64 = value.into();
        AppChannel::from_i64(n)
    }

    /// Reads a channel from its number: `0` is the preview channel, `1` the
    /// stable channel, every other number none.
    pub fn from_i64(value: i64) -> (res: Option<AppChannel>)
        ensures
            res == channel_of_number(value),
            res is Some <==> (value == 0 || value == 1),
    {
        match value {
            0 => Some(AppChannel::Preview),
            1 => Some(AppChannel::Stable),
            _ => None,
        }
    }

    /// The number under which the channel is persisted.
    pub fn to_number(&self) -> (res: i64)
        ensures
            res == channel_number(*self),
    {
        match self {
            AppChannel::Preview => 0,
            AppChannel::Stable => 1,
        }
    }

    /// The lower-case name of the channel, as it is displayed.
    pub fn to_string(&self) -> (res: String)
        ensures
            res@ == channel_name(*self),
    {
        match self {
            AppChannel::Preview => "preview".to_owned(),
            AppChannel::Stable => "stable".to_owned(),
        }
    }
}

/// A channel read back from the number it is persisted under is the same
/// channel.
pub proof fn lemma_number_round_trip(channel: AppChannel)
    ensures
        channel_of_number(channel_number(channel)) == Some(channel),
{
}

/// A number reads as a channel exactly when it is the number that channel is
/// persisted under.
pub proof fn lemma_number_names_channel(n: i64, channel: AppChannel)
    ensures
        channel_of_number(n) == Some(channel) <==> n == channel_number(channel),
        channel_of_number(n) is Some <==> (n == 0 || n == 1),
{
}

/// Distinct channels are persisted under distinct numbers and have distinct
/// names.
pub proof fn lemma_channels_distinguishable(a: AppChannel, b: AppChannel)
    requires
        a != b,
    ensures
        channel_number(a) != channel_number(b),
        channel_name(a) != channel_name(b),
{
    reveal_strlit("preview");
    reveal_strlit("stable");
    assert(channel_name(a).len() != channel_name(b).len());
}

} // verus!
