//! Command-line mode and selection-criterion choice.
//!
//! Three mutually exclusive modes are recognised, in this priority: help,
//! list, capture. Any other argument is silently ignored. In capture mode a
//! recognised keyword picks the selection criterion; with no keyword the
//! default controller criterion is used.

use vstd::prelude::*;

verus! {

/// What the process should do, chosen from its arguments.
#[derive(Clone, Copy, Debug, PartialEq, Eq, Structural)]
pub enum Mode {
    /// Print usage lines and exit.
    Help,
    /// Print the device directory and exit.
    List,
    /// Select a device and capture its events.
    Capture,
}

/// Which substring the device selection scans for.
#[derive(Clone, Copy, Debug, PartialEq, Eq, Structural)]
pub enum Criterion {
    /// The MIDI through port.
    Through,
    /// The virtual ALSA bridge.
    Wine,
    /// The default controller family.
    Controller,
}

/// One of the arguments is exactly the given word.
pub open spec fn has_word(args: Seq<String>, w: Seq<char>) -> bool {
    exists|i: int| 0 <= i < args.len() && #[trigger] args[i]@ == w
}

/// The mode the arguments choose: "help" wins over "list", which wins over
/// capture; anything else is ignored.
pub open spec fn spec_mode(args: Seq<String>) -> Mode {
    if has_word(args, "help"@) {
        Mode::Help
    } else if has_word(args, "list"@) {
        Mode::List
    } else {
        Mode::Capture
    }
}

/// The criterion the arguments choose: "Through" wins over "wine", and with
/// neither keyword the controller criterion is used.
pub open spec fn spec_criterion(args: Seq<String>) -> Criterion {
    if has_word(args, "Through"@) {
        Criterion::Through
    } else if has_word(args, "wine"@) {
        Criterion::Wine
    } else {
        Criterion::Controller
    }
}

/// Character-for-character string equality.
fn str_eq(a: &str, b: &str) -> (r: bool)
    ensures
        r == (a@ == b@),
{
    let alen = a.unicode_len();
    let blen = b.unicode_len();
    if alen != blen {
        return false;
    }
    let mut i: usize = 0;
    while i < alen
        invariant
            alen == a@.len(),
            blen == b@.len(),
            alen == blen,
            i <= alen,
            forall|k: int| 0 <= k < i ==> a@[k] == b@[k],
        decreases alen - i,
    {
        if a.get_char(i) != b.get_char(i) {
            return false;
        }
        i += 1;
    }
    proof {
        assert(a@ =~= b@);
    }
    true
}

/// One of the arguments is exactly the given word.
pub fn contains_word(args: &Vec<String>, w: &str) -> (r: bool)
    ensures
        r == has_word(args@, w@),
{
    let mut i: usize = 0;
    while i < args.len()
        invariant
            i <= args@.len(),
            forall|k: int| 0 <= k < i ==> #[trigger] args@[k]@ != w@,
        decreases args@.len() - i,
    {
        if str_eq(args[i].as_str(), w) {
            return true;
        }
        i += 1;
    }
    false
}

/// Choose the mode from the process arguments (program name excluded).
pub fn choose_mode(args: &Vec<String>) -> (m: Mode)
    ensures
        m == spec_mode(args@),
{
    if contains_word(args, "help") {
        Mode::Help
    } else if contains_word(args, "list") {
        Mode::List
    } else {
        Mode::Capture
    }
}

/// Choose the selection criterion from the process arguments.
pub fn choose_criterion(args: &Vec<String>) -> (c: Criterion)
    ensures
        c == spec_criterion(args@),
{
    if contains_word(args, "Through") {
        Criterion::Through
    } else if contains_word(args, "wine") {
        Criterion::Wine
    } else {
        Criterion::Controller
    }
}

/// The substring that device selection scans for under each criterion.
pub fn criterion_pattern(c: Criterion) -> (p: &'static str)
    ensures
        c == Criterion::Through ==> p@ == "Through Port"@,
        c == Criterion::Wine ==> p@ == "WINE ALSA Output #1"@,
        c == Criterion::Controller ==> p@ == "XONE"@,
{
    match c {
        Criterion::Through => "Through Port",
        Criterion::Wine => "WINE ALSA Output #1",
        Criterion::Controller => "XONE",
    }
}

} // verus!
