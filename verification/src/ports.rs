//! The port directory: what one enumeration of the output ports looks like,
//! and whether a requested port is in it.

use vstd::prelude::*;

verus! {

/// Name under which the bridge registers with the MIDI subsystem.
pub const CLIENT_NAME: &'static str = "valand-midi-out";

/// Name given to each connection the bridge opens.
pub const CONNECTION_NAME: &'static str = "midir-test";

/// One output port as a single enumeration saw it. The position means
/// nothing outside that enumeration.
#[derive(Debug, PartialEq, Eq)]
pub struct PortDescriptor {
    pub index: usize,
    pub name: String,
}

/// The listing that a round of name reads amounts to: one entry per port, in
/// enumeration order, with a failure marker where the name could not be read.
pub open spec fn listing(probes: Seq<Option<String>>) -> Seq<Result<String, ()>> {
    Seq::new(
        probes.len(),
        |i: int|
            match probes[i] {
                Some(name) => Ok(name),
                None => Err(()),
            },
    )
}

/// Whether `names` holds, at position `index`, a port whose name was read and
/// is `name`. Position and name must both agree: a stale position that now
/// belongs to another port does not count.
pub open spec fn port_listed(names: Seq<Result<String, ()>>, index: int, name: Seq<char>) -> bool {
    &&& 0 <= index < names.len()
    &&& names[index] matches Ok(listed)
    &&& listed@ == name
}

/// Turns the name reads of one enumeration into its listing.
pub fn list_ports(probes: &Vec<Option<String>>) -> (names: Vec<Result<String, ()>>)
    ensures
        names@ == listing(probes@),
{
    let mut names: Vec<Result<String, ()>> = Vec::new();
    let mut i: usize = 0;
    while i < probes.len()
        invariant
            i <= probes.len(),
            names@ == listing(probes@.take(i as int)),
        decreases probes.len() - i,
    {
        let entry = match &probes[i] {
            Some(name) => Ok(name.clone()),
            None => Err(()),
        };
        names.push(entry);
        i = i + 1;
        assert(names@ =~= listing(probes@.take(i as int)));
    }
    assert(probes@.take(i as int) =~= probes@);
    names
}

/// Looks the requested port up in a listing.
pub fn filter_matching_port(
    names: &Vec<Result<String, ()>>,
    port_index: usize,
    port_name: &String,
) -> (found: Option<PortDescriptor>)
    ensures
        found is Some <==> port_listed(names@, port_index as int, port_name@),
        found matches Some(port) ==> port.index == port_index && port.name@ == port_name@,
{
    if port_index >= names.len() {
        return None;
    }
    match &names[port_index] {
        Ok(listed) => {
            if *listed == *port_name {
                Some(PortDescriptor { index: port_index, name: listed.clone() })
            } else {
                None
            }
        },
        Err(_) => None,
    }
}

} // verus!
