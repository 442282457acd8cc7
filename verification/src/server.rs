use vstd::prelude::*;

verus! {

/// The response-header policy of the serving shell: the service answers any
/// origin, so every response carries these four fixed CORS headers.
pub struct CORS;

impl CORS {
    /// The headers the shell adds to every response, in order.
    pub fn headers() -> (r: Vec<(&'static str, &'static str)>)
        ensures
            r@.len() == 4,
            r@[0].0@ == "Access-Control-Allow-Origin"@ && r@[0].1@ == "*"@,
            r@[1].0@ == "Access-Control-Allow-Methods"@ && r@[1].1@
                == "POST, GET, PATCH, OPTIONS"@,
            r@[2].0@ == "Access-Control-Allow-Headers"@ && r@[2].1@ == "*"@,
            r@[3].0@ == "Access-Control-Allow-Credentials"@ && r@[3].1@ == "true"@,
    {
        let mut v: Vec<(&'static str, &'static str)> = Vec::new();
        v.push(("Access-Control-Allow-Origin", "*"));
        v.push(("Access-Control-Allow-Methods", "POST, GET, PATCH, OPTIONS"));
        v.push(("Access-Control-Allow-Headers", "*"));
        v.push(("Access-Control-Allow-Credentials", "true"));
        v
    }
}

/// The fixed wiring of the serving shell: where it binds and the one route it
/// mounts.
pub struct ServerConfig {
    pub address: &'static str,
    pub route: &'static str,
}

/// The wiring the launch step hands the serving shell: the week schedule is
/// served on one route, bound on every interface.
pub fn rocket() -> (c: ServerConfig)
    ensures
        c.address@ == "0.0.0.0"@,
        c.route@ == "/current-week"@,
{
    ServerConfig { address: "0.0.0.0", route: "/current-week" }
}

} // verus!
