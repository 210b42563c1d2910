//! Toolchain variants ("channels") and their container images.

use vstd::prelude::*;

verus! {

/// A named toolchain variant. Each variant maps to one immutable container
/// image; an unrecognized name is rejected before any filesystem or sandbox
/// work happens.
#[derive(Clone, Copy, PartialEq, Eq, Structural, Debug)]
pub enum Channel {
    Master,
}

/// The container image that a channel's sandboxed invocations run in.
pub open spec fn spec_container_name(c: Channel) -> Seq<char> {
    match c {
        Channel::Master => "noir-master"@,
    }
}

impl Channel {
    /// The image identifier handed to the container runtime for this channel.
    pub fn container_name(&self) -> (r: &'static str)
        ensures
            r@ == spec_container_name(*self),
    {
        match self {
            Channel::Master => "noir-master",
        }
    }
}

/// Validates the channel name taken from the request path. Exactly the names
/// of the registered variants are accepted; anything else fails validation,
/// so no workspace or sandbox work is ever started for an unknown channel.
pub fn parse_channel(name: &str) -> (r: Option<Channel>)
    ensures
        r is Some <==> name@ == "master"@,
        name@ == "master"@ ==> r == Some(Channel::Master),
{
    let master: String = String::from_str("master");
    if name.to_owned() == master {
        Some(Channel::Master)
    } else {
        None
    }
}

} // verus!
