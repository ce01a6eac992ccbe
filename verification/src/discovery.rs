//! Device discovery: filtering enumerated serial ports down to the known
//! peripherals.
//!
//! Enumerating the system's ports is I/O and is done by the embedding
//! program; it hands the result to [`filter_candidates`], which keeps the
//! names of the ports whose USB product identifier is on the allow-list.

use vstd::prelude::*;

verus! {

/// Product identifier of the first supported reader variant.
pub const APPROVED_PID_A: u16 = 24577;

/// Product identifier of the second supported reader variant.
pub const APPROVED_PID_B: u16 = 29987;

/// Whether a USB product identifier belongs to a supported peripheral.
pub open spec fn spec_approved_pid(pid: u16) -> bool {
    pid == APPROVED_PID_A || pid == APPROVED_PID_B
}

/// One enumerated serial port: its system name and, when the port is a USB
/// device, the device's product identifier.
pub struct PortInfo {
    pub name: String,
    pub usb_pid: Option<u16>,
}

/// Whether an enumerated port is a connection candidate: it is a USB device
/// and its product identifier is approved.
pub open spec fn spec_candidate(p: PortInfo) -> bool {
    p.usb_pid matches Some(pid) && spec_approved_pid(pid)
}

/// The names of the candidate ports among `ports`, in order.
pub open spec fn spec_candidate_names(ports: Seq<PortInfo>) -> Seq<Seq<char>> {
    ports.filter(|p: PortInfo| spec_candidate(p)).map_values(|p: PortInfo| p.name@)
}

/// Whether a USB product identifier belongs to a supported peripheral.
pub fn approved_pid(pid: u16) -> (r: bool)
    ensures
        r == spec_approved_pid(pid),
{
    pid == APPROVED_PID_A || pid == APPROVED_PID_B
}

proof fn lemma_candidate_names_push(s: Seq<PortInfo>, x: PortInfo)
    ensures
        spec_candidate(x) ==> spec_candidate_names(s.push(x)) =~~= spec_candidate_names(s).push(
            x.name@,
        ),
        !spec_candidate(x) ==> spec_candidate_names(s.push(x)) =~~= spec_candidate_names(s),
{
    let pred = |p: PortInfo| spec_candidate(p);
    let name_of = |p: PortInfo| p.name@;
    reveal(Seq::filter);
    assert(s.push(x).drop_last() =~= s);
    assert(s.push(x).last() == x);
    assert(s.push(x).filter(pred) == (if pred(x) {
        s.filter(pred).push(x)
    } else {
        s.filter(pred)
    }));
    if pred(x) {
        s.filter(pred).lemma_push_map_commute(name_of, x);
    }
}

/// Discovery: keep, in order, the names of the candidate ports.
///
/// Enumeration failures are the caller's concern; it passes an empty list,
/// and the result is then empty ("no devices").
pub fn filter_candidates(ports: Vec<PortInfo>) -> (r: Vec<String>)
    ensures
        r.deep_view() == spec_candidate_names(ports@),
{
    let mut r: Vec<String> = Vec::new();
    let mut i: usize = 0;
    while i < ports.len()
        invariant
            i <= ports.len(),
            r.deep_view() == spec_candidate_names(ports@.subrange(0, i as int)),
        decreases ports.len() - i,
    {
        let ghost prefix = ports@.subrange(0, i as int);
        let p = &ports[i];
        let is_candidate = match p.usb_pid {
            Some(pid) => approved_pid(pid),
            None => false,
        };
        proof {
            assert(ports@.subrange(0, i + 1 as int) =~= prefix.push(ports@[i as int]));
            lemma_candidate_names_push(prefix, ports@[i as int]);
        }
        if is_candidate {
            r.push(p.name.clone());
            proof {
                assert(r.deep_view() =~~= spec_candidate_names(prefix).push(
                    ports@[i as int].name@,
                ));
            }
        }
        i = i + 1;
    }
    proof {
        assert(ports@.subrange(0, ports@.len() as int) =~= ports@);
    }
    r
}

} // verus!
