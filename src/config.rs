use vstd::prelude::*;

verus! {

/// The broker address used when none is given.
pub open spec fn default_servers() -> Seq<char> {
    "localhost"@
}

/// The topic subscribed to when none is given.
pub open spec fn default_topic() -> Seq<char> {
    "messages"@
}

/// The given value, or `default` where none was given.
pub open spec fn given_or(arg: Option<String>, default: Seq<char>) -> Seq<char> {
    match arg {
        Some(s) => s@,
        None => default,
    }
}

/// Where a session connects and what it listens to. Fixed once built.
pub struct SessionConfig {
    pub bootstrap_servers: String,
    pub topic: String,
}

impl SessionConfig {
    /// Takes the optional command-line values and fills in the defaults.
    pub fn new(bootstrap_servers: Option<String>, topic: Option<String>) -> (r: SessionConfig)
        ensures
            r.bootstrap_servers@ == given_or(bootstrap_servers, default_servers()),
            r.topic@ == given_or(topic, default_topic()),
    {
        let servers = match bootstrap_servers {
            Some(s) => s,
            None => String::from_str("localhost"),
        };
        let topic = match topic {
            Some(t) => t,
            None => String::from_str("messages"),
        };
        SessionConfig { bootstrap_servers: servers, topic }
    }
}

} // verus!
