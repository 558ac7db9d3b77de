use vstd::prelude::*;

verus! {

/// The local address bound when none is given.
pub const DEFAULT_BIND_ADDRESS: &'static str = "0.0.0.0:8888";

/// Where every message is sent: the limited-broadcast address on the chat port.
pub const BROADCAST_ADDRESS: &'static str = "255.255.255.255:8888";

/// The local address to bind: the one given, else the default.
pub fn bind_address(given: Option<&str>) -> (r: String)
    ensures
        given is Some ==> r@ == given->0@,
        given is None ==> r@ == DEFAULT_BIND_ADDRESS@,
{
    match given {
        Some(a) => String::from_str(a),
        None => String::from_str(DEFAULT_BIND_ADDRESS),
    }
}

/// The greeting lines shown one after another before the chat starts.
pub fn intro_lines(username: &str) -> (r: Vec<String>)
    ensures
        r@.len() == 4,
        r@[0]@ == "Wake up, "@ + username@ + "..."@,
        r@[1]@ == "The Matrix has you..."@,
        r@[2]@ == "Follow the white rabbit."@,
        r@[3]@ == "Knock, knock, "@ + username@ + "."@,
{
    let mut first = String::from_str("Wake up, ");
    first.append(username);
    first.append("...");
    let mut last = String::from_str("Knock, knock, ");
    last.append(username);
    last.append(".");
    let mut r: Vec<String> = Vec::new();
    r.push(first);
    r.push(String::from_str("The Matrix has you..."));
    r.push(String::from_str("Follow the white rabbit."));
    r.push(last);
    r
}

} // verus!
