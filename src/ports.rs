//! The MIDI outputs as the caller sees them: an identifier per port for one
//! enumeration, its name, and whether it is recommended.
use vstd::prelude::*;

verus! {

use crate::names::{is_recommended_output, lower_of, recommended_folded};
use crate::session::CoreError;

/// The decimal digit `d`.
pub open spec fn digit_char(d: nat) -> char {
    if d == 0 {
        '0'
    } else if d == 1 {
        '1'
    } else if d == 2 {
        '2'
    } else if d == 3 {
        '3'
    } else if d == 4 {
        '4'
    } else if d == 5 {
        '5'
    } else if d == 6 {
        '6'
    } else if d == 7 {
        '7'
    } else if d == 8 {
        '8'
    } else {
        '9'
    }
}

/// `n` written in decimal, without sign or leading zeros.
pub open spec fn decimal(n: nat) -> Seq<char>
    decreases n,
{
    if n < 10 {
        seq![digit_char(n)]
    } else {
        decimal(n / 10).push(digit_char(n % 10))
    }
}

/// Relies on usize's `to_string` (its `Display`): the decimal digits of `i`.
#[verifier::external_body]
fn index_id(i: usize) -> (r: String)
    ensures
        r@ == decimal(i as nat),
{
    i.to_string()
}

/// One enumerated output port.
pub struct MidiOutputInfo {
    pub id: String,
    pub name: String,
    pub recommended: bool,
}

/// Describes the ports of one enumeration, given their names in order: the
/// identifier of a port is its position in decimal.
pub fn describe_outputs(port_names: &Vec<String>) -> (r: Vec<MidiOutputInfo>)
    ensures
        r@.len() == port_names@.len(),
        forall|i: int|
            0 <= i < r@.len() ==> {
                &&& (#[trigger] r@[i]).id@ == decimal(i as nat)
                &&& r@[i].name@ == port_names@[i]@
                &&& r@[i].recommended == recommended_folded(lower_of(port_names@[i]@))
            },
{
    let mut r: Vec<MidiOutputInfo> = Vec::new();
    let mut i: usize = 0;
    while i < port_names.len()
        invariant
            i <= port_names@.len(),
            r@.len() == i,
            forall|j: int|
                0 <= j < i ==> {
                    &&& (#[trigger] r@[j]).id@ == decimal(j as nat)
                    &&& r@[j].name@ == port_names@[j]@
                    &&& r@[j].recommended == recommended_folded(lower_of(port_names@[j]@))
                },
        decreases port_names@.len() - i,
    {
        let name = port_names[i].clone();
        let recommended = is_recommended_output(name.as_str());
        r.push(MidiOutputInfo { id: index_id(i), name, recommended });
        i += 1;
    }
    r
}

/// Finds the port whose identifier is `output_id` in an enumeration with
/// the given port names, and returns its position and name.
pub fn resolve_port(port_names: &Vec<String>, output_id: &str) -> (r: Result<(usize, String), CoreError>)
    ensures
        match r {
            Ok((i, name)) => {
                &&& i < port_names@.len()
                &&& decimal(i as nat) == output_id@
                &&& name@ == port_names@[i as int]@
                &&& forall|j: nat| j < i ==> decimal(j) != output_id@
            },
            Err(e) => {
                &&& e == CoreError::NotFound
                &&& forall|j: nat| j < port_names@.len() ==> decimal(j) != output_id@
            },
        },
{
    let wanted = output_id.to_owned();
    let mut i: usize = 0;
    while i < port_names.len()
        invariant
            i <= port_names@.len(),
            wanted@ == output_id@,
            forall|j: nat| j < i ==> decimal(j) != output_id@,
        decreases port_names@.len() - i,
    {
        let id = index_id(i);
        if id == wanted {
            return Ok((i, port_names[i].clone()));
        }
        i += 1;
    }
    Err(CoreError::NotFound)
}

/// The name a virtual output is created under when none is given.
pub const DEFAULT_VIRTUAL_NAME: &'static str = "Pulse Virtual Out";

/// The name to create a virtual output under: the requested one, else the
/// default. Fails with `Unsupported` where the platform has no virtual ports.
pub fn virtual_output_name(requested: Option<String>, supported: bool) -> (r: Result<String, CoreError>)
    ensures
        !supported ==> r == Err::<String, CoreError>(CoreError::Unsupported),
        supported ==> r is Ok,
        supported && requested is Some ==> r.unwrap()@ == requested.unwrap()@,
        supported && requested is None ==> r.unwrap()@ == DEFAULT_VIRTUAL_NAME@,
{
    if !supported {
        return Err(CoreError::Unsupported);
    }
    match requested {
        Some(n) => Ok(n),
        None => Ok(String::from_str(DEFAULT_VIRTUAL_NAME)),
    }
}

} // verus!
