//! Device descriptors and name-based device selection.
//!
//! Selection scans the whole device directory in order; every device whose
//! name contains the criterion substring overwrites the result with its id,
//! so when several devices match, the last one in enumeration order wins.
//! When none matches, the result is id 0.

use vstd::prelude::*;

verus! {

/// Whether a device receives or emits MIDI events.
#[derive(Clone, Copy, Debug, PartialEq, Eq, Structural)]
pub enum Direction {
    Input,
    Output,
}

/// An immutable snapshot of one entry of the host's device directory.
#[derive(Clone, Debug)]
pub struct DeviceDescriptor {
    pub id: i32,
    pub name: String,
    pub direction: Direction,
}

/// The pattern occurs in `name` starting at position `i`.
pub open spec fn match_at(name: Seq<char>, pat: Seq<char>, i: int) -> bool {
    &&& 0 <= i
    &&& i + pat.len() <= name.len()
    &&& name.subrange(i, i + pat.len() as int) == pat
}

/// The pattern occurs somewhere in `name` (substring containment).
pub open spec fn name_matches(name: Seq<char>, pat: Seq<char>) -> bool {
    exists|i: int| match_at(name, pat, i)
}

/// The id that scanning the directory yields: the id of the last device
/// whose name contains the pattern, or 0 when no name does.
pub open spec fn spec_select(devices: Seq<DeviceDescriptor>, pat: Seq<char>) -> int
    decreases devices.len(),
{
    if devices.len() == 0 {
        0
    } else if name_matches(devices.last().name@, pat) {
        devices.last().id as int
    } else {
        spec_select(devices.drop_last(), pat)
    }
}

/// The pattern occurs in `name` at exactly the position `i`.
fn match_at_exec(name: &str, pat: &str, i: usize, nlen: usize, plen: usize) -> (b: bool)
    requires
        nlen == name@.len(),
        plen == pat@.len(),
        i + plen <= nlen,
    ensures
        b == match_at(name@, pat@, i as int),
{
    let mut j: usize = 0;
    while j < plen
        invariant
            j <= plen,
            nlen == name@.len(),
            plen == pat@.len(),
            i + plen <= nlen,
            forall|k: int| 0 <= k < j ==> name@[i + k] == pat@[k],
        decreases plen - j,
    {
        if name.get_char(i + j) != pat.get_char(j) {
            proof {
                if match_at(name@, pat@, i as int) {
                    let sub = name@.subrange(i as int, i + pat@.len() as int);
                    assert(sub[j as int] == pat@[j as int]);
                }
            }
            return false;
        }
        j += 1;
    }
    proof {
        assert(name@.subrange(i as int, i + pat@.len() as int) =~= pat@);
    }
    true
}

/// Whether the device name contains the criterion substring.
pub fn name_contains(name: &str, pat: &str) -> (b: bool)
    ensures
        b == name_matches(name@, pat@),
{
    let nlen = name.unicode_len();
    let plen = pat.unicode_len();
    if plen > nlen {
        proof {
            assert(forall|i: int| !match_at(name@, pat@, i));
        }
        return false;
    }
    if plen == 0 {
        proof {
            assert(name@.subrange(0, 0) =~= pat@);
            assert(match_at(name@, pat@, 0));
        }
        return true;
    }
    let mut i: usize = 0;
    while i <= nlen - plen
        invariant
            nlen == name@.len(),
            plen == pat@.len(),
            0 < plen <= nlen,
            i <= nlen - plen + 1,
            forall|k: int| 0 <= k < i ==> !match_at(name@, pat@, k),
        decreases nlen - plen + 1 - i,
    {
        if match_at_exec(name, pat, i, nlen, plen) {
            return true;
        }
        i += 1;
    }
    proof {
        assert forall|k: int| !match_at(name@, pat@, k) by {
            if 0 <= k <= nlen - plen {
                assert(!match_at(name@, pat@, k));
            }
        }
    }
    false
}

/// Scan the directory in order and return the id of the last device whose
/// name contains the criterion; 0 when none does.
pub fn select(devices: &Vec<DeviceDescriptor>, criterion: &str) -> (id: i32)
    ensures
        id as int == spec_select(devices@, criterion@),
{
    let mut ret: i32 = 0;
    let mut idx: usize = 0;
    while idx < devices.len()
        invariant
            idx <= devices@.len(),
            ret as int == spec_select(devices@.subrange(0, idx as int), criterion@),
        decreases devices@.len() - idx,
    {
        let d = &devices[idx];
        if name_contains(d.name.as_str(), criterion) {
            ret = d.id;
        }
        idx += 1;
        proof {
            let prefix = devices@.subrange(0, idx - 1);
            let prefix2 = devices@.subrange(0, idx as int);
            assert(prefix2.last() == devices@[idx - 1]);
            assert(prefix2.drop_last() =~= prefix);
        }
    }
    proof {
        assert(devices@.subrange(0, devices@.len() as int) =~= devices@);
    }
    ret
}

/// The id of the last device whose name contains "WINE ALSA Output #1"
/// (the virtual ALSA bridge), or 0 when none does.
pub fn get_wine_alsa_input_id(devices: &Vec<DeviceDescriptor>) -> (id: i32)
    ensures
        id as int == spec_select(devices@, "WINE ALSA Output #1"@),
{
    select(devices, "WINE ALSA Output #1")
}

/// The id of the last device whose name contains "Through Port", or 0 when
/// none does.
pub fn get_midithroughport_id(devices: &Vec<DeviceDescriptor>) -> (id: i32)
    ensures
        id as int == spec_select(devices@, "Through Port"@),
{
    select(devices, "Through Port")
}

/// The id of the last device whose name contains "XONE" (the default
/// controller family), or 0 when none does.
pub fn get_xonek2_id(devices: &Vec<DeviceDescriptor>) -> (id: i32)
    ensures
        id as int == spec_select(devices@, "XONE"@),
{
    select(devices, "XONE")
}

/// Last match wins: when the device at position `j` matches the criterion
/// and no later device does, selection yields exactly the id at position
/// `j` — never that of an earlier match.
pub proof fn lemma_select_last_match_wins(devices: Seq<DeviceDescriptor>, pat: Seq<char>, j: int)
    requires
        0 <= j < devices.len(),
        name_matches(devices[j].name@, pat),
        forall|k: int| j < k < devices.len() ==> !name_matches(devices[k].name@, pat),
    ensures
        spec_select(devices, pat) == devices[j].id as int,
    decreases devices.len(),
{
    if j == devices.len() - 1 {
        assert(devices.last() == devices[j]);
    } else {
        assert(devices.last() == devices[devices.len() - 1]);
        assert(!name_matches(devices.last().name@, pat));
        let rest = devices.drop_last();
        assert(rest[j] == devices[j]);
        assert(forall|k: int| j < k < rest.len() ==> !name_matches(#[trigger] rest[k].name@, pat));
        lemma_select_last_match_wins(rest, pat, j);
    }
}

/// When no device name contains the criterion, selection yields 0.
pub proof fn lemma_select_no_match(devices: Seq<DeviceDescriptor>, pat: Seq<char>)
    requires
        forall|k: int| 0 <= k < devices.len() ==> !name_matches(devices[k].name@, pat),
    ensures
        spec_select(devices, pat) == 0,
    decreases devices.len(),
{
    if devices.len() > 0 {
        assert(devices.last() == devices[devices.len() - 1]);
        let rest = devices.drop_last();
        assert(forall|k: int|
            0 <= k < rest.len() ==> !name_matches(#[trigger] rest[k].name@, pat));
        lemma_select_no_match(rest, pat);
    }
}

} // verus!
