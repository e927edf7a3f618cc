//! The rules the embedded WASM core runs under.
use vstd::prelude::*;

verus! {

/// The hosts the WASM core may connect to, as host patterns.
pub open spec fn allowed_hosts_view() -> Seq<Seq<char>> {
    seq![
        "*.1password.com"@,
        "*.1password.ca"@,
        "*.1password.eu"@,
        "*.b5staging.com"@,
        "*.b5dev.com"@,
        "*.b5dev.ca"@,
        "*.b5dev.eu"@,
        "*.b5test.com"@,
        "*.b5test.ca"@,
        "*.b5test.eu"@,
        "*.b5rev.com"@,
        "*.b5local.com"@,
    ]
}

/// The 1Password hosts the WASM core may connect to; it may reach no other.
pub fn allowed_hosts() -> (res: Vec<String>)
    ensures
        res@.len() == allowed_hosts_view().len(),
        forall|i: int| 0 <= i < res@.len() ==> #[trigger] res@[i]@ == allowed_hosts_view()[i],
{
    let mut hosts: Vec<String> = Vec::new();
    hosts.push("*.1password.com".to_owned());
    hosts.push("*.1password.ca".to_owned());
    hosts.push("*.1password.eu".to_owned());
    hosts.push("*.b5staging.com".to_owned());
    hosts.push("*.b5dev.com".to_owned());
    hosts.push("*.b5dev.ca".to_owned());
    hosts.push("*.b5dev.eu".to_owned());
    hosts.push("*.b5test.com".to_owned());
    hosts.push("*.b5test.ca".to_owned());
    hosts.push("*.b5test.eu".to_owned());
    hosts.push("*.b5rev.com".to_owned());
    hosts.push("*.b5local.com".to_owned());
    hosts
}

} // verus!
