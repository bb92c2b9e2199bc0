//! Rendering of the device directory for list mode: one line per
//! descriptor, in enumeration order.

use vstd::prelude::*;

use crate::device::{DeviceDescriptor, Direction};

verus! {

/// The decimal digit character for a value between 0 and 9.
pub open spec fn digit_char(d: int) -> char {
    if d == 0 {
        '0'
    } else if d == 1 {
        '1'
    } else if d == 2 {
        '2'
    } else if d == 3 {
        '3'
    } else if d == 4 {
        '4'
    } else if d == 5 {
        '5'
    } else if d == 6 {
        '6'
    } else if d == 7 {
        '7'
    } else if d == 8 {
        '8'
    } else {
        '9'
    }
}

/// The decimal digits of a positive value, most significant first; empty
/// for zero and below.
pub open spec fn spec_decimal_digits(n: int) -> Seq<char>
    decreases n,
{
    if n <= 0 {
        Seq::empty()
    } else {
        spec_decimal_digits(n / 10).push(digit_char(n % 10))
    }
}

/// The decimal rendering of an integer: "0" for zero, a leading '-' for
/// negative values, no leading zeroes.
pub open spec fn spec_decimal(n: int) -> Seq<char> {
    if n == 0 {
        seq!['0']
    } else if n < 0 {
        seq!['-'] + spec_decimal_digits(-n)
    } else {
        spec_decimal_digits(n)
    }
}

/// The one-character string for a decimal digit.
fn digit_str(d: u32) -> (s: &'static str)
    requires
        d < 10,
    ensures
        s@ == seq![digit_char(d as int)],
{
    proof {
        reveal_strlit("0");
        reveal_strlit("1");
        reveal_strlit("2");
        reveal_strlit("3");
        reveal_strlit("4");
        reveal_strlit("5");
        reveal_strlit("6");
        reveal_strlit("7");
        reveal_strlit("8");
        reveal_strlit("9");
        assert("0"@ =~= seq!['0']);
        assert("1"@ =~= seq!['1']);
        assert("2"@ =~= seq!['2']);
        assert("3"@ =~= seq!['3']);
        assert("4"@ =~= seq!['4']);
        assert("5"@ =~= seq!['5']);
        assert("6"@ =~= seq!['6']);
        assert("7"@ =~= seq!['7']);
        assert("8"@ =~= seq!['8']);
        assert("9"@ =~= seq!['9']);
    }
    match d {
        0 => "0",
        1 => "1",
        2 => "2",
        3 => "3",
        4 => "4",
        5 => "5",
        6 => "6",
        7 => "7",
        8 => "8",
        _ => "9",
    }
}

/// The decimal digits of a positive value, most significant first.
fn render_digits(n: u32) -> (s: String)
    requires
        n > 0,
    ensures
        s@ == spec_decimal_digits(n as int),
    decreases n,
{
    if n < 10 {
        let s = String::from_str(digit_str(n));
        proof {
            assert(n as int / 10 == 0);
            assert(n as int % 10 == n as int);
            assert(spec_decimal_digits(0) =~= Seq::<char>::empty());
            assert(spec_decimal_digits(n as int) =~= seq![digit_char(n as int)]);
        }
        s
    } else {
        let mut s = render_digits(n / 10);
        s.append(digit_str(n % 10));
        proof {
            assert(s@ =~= spec_decimal_digits(n as int));
        }
        s
    }
}

/// The decimal rendering of a device id.
pub fn format_device_id(id: i32) -> (s: String)
    ensures
        s@ == spec_decimal(id as int),
{
    if id == 0 {
        let s = String::from_str("0");
        proof {
            reveal_strlit("0");
            assert(s@ =~= spec_decimal(0));
        }
        s
    } else if id > 0 {
        render_digits(id as u32)
    } else {
        let mag: u32 = (-(id as i64)) as u32;
        let mut s = String::from_str("-");
        s.append(render_digits(mag).as_str());
        proof {
            reveal_strlit("-");
            assert(s@ =~= spec_decimal(id as int));
        }
        s
    }
}

/// The label of a device direction.
pub open spec fn spec_direction_label(d: Direction) -> Seq<char> {
    match d {
        Direction::Input => "input"@,
        Direction::Output => "output"@,
    }
}

/// The label of a device direction.
pub fn direction_label(d: Direction) -> (s: &'static str)
    ensures
        s@ == spec_direction_label(d),
{
    match d {
        Direction::Input => "input",
        Direction::Output => "output",
    }
}

/// The directory line for one descriptor: its id, name and direction.
pub open spec fn spec_device_line(d: DeviceDescriptor) -> Seq<char> {
    "device "@ + spec_decimal(d.id as int) + " "@ + d.name@ + " "@ + spec_direction_label(
        d.direction,
    )
}

/// Render the directory line for one descriptor.
pub fn device_line(d: &DeviceDescriptor) -> (line: String)
    ensures
        line@ == spec_device_line(*d),
{
    let mut s = String::from_str("device ");
    s.append(format_device_id(d.id).as_str());
    s.append(" ");
    s.append(d.name.as_str());
    s.append(" ");
    s.append(direction_label(d.direction));
    proof {
        assert(s@ =~= spec_device_line(*d));
    }
    s
}

/// Render the whole directory for list mode: exactly one line per
/// descriptor, in enumeration order.
pub fn list_lines(devices: &Vec<DeviceDescriptor>) -> (lines: Vec<String>)
    ensures
        lines@.len() == devices@.len(),
        forall|i: int| 0 <= i < devices@.len() ==> lines@[i]@ == spec_device_line(devices@[i]),
{
    let mut lines: Vec<String> = Vec::new();
    let mut idx: usize = 0;
    while idx < devices.len()
        invariant
            idx <= devices@.len(),
            lines@.len() == idx,
            forall|i: int| 0 <= i < idx ==> lines@[i]@ == spec_device_line(devices@[i]),
        decreases devices@.len() - idx,
    {
        lines.push(device_line(&devices[idx]));
        idx += 1;
    }
    lines
}

} // verus!
