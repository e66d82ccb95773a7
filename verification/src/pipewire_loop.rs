//! Decisions of the session loop that are pure: recognising the
//! announcement of the native "link" object factory.  The loop itself — the
//! native connection, the reactor and its listeners — runs outside the
//! library and feeds every notification through these functions.

use vstd::prelude::*;
use crate::props::{has_key, lookup, Properties, str_eq};

verus! {

/// The resolved names of the native object factories the daemon needs:
/// the factory that creates link objects.  Set once at startup by the
/// factory resolver, read-only afterwards.
#[derive(Debug, Clone, PartialEq, Eq)]
pub struct Factories {
    pub link: String,
}

/// One step of the factory resolver: whether this notification announces
/// the factory for link objects, and under which name.  The resolver feeds
/// every startup notification through this test and keeps the first name
/// it yields.
pub fn resolve_link_factory_step(props: &Properties) -> (r: Option<String>)
    ensures
        r is Some <==> (lookup(props@, "factory.type.name"@) matches Some(t) && t@
            == "PipeWire:Interface:Link"@ && has_key(props@, "factory.name"@)),
        r matches Some(name) ==> Some(name) == lookup(props@, "factory.name"@),
{
    if let Some(factory_type) = props.get("factory.type.name") {
        if str_eq(factory_type.as_str(), "PipeWire:Interface:Link") {
            if let Some(name) = props.get("factory.name") {
                return Some(name);
            }
        }
    }
    None
}

} // verus!
