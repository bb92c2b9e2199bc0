//! Verified core of a small MIDI capture utility.
//!
//! The library holds the pure logic of the tool: decoding raw MIDI events
//! into simplified messages, selecting an input device from the enumerated
//! directory by name substring (last match wins), the poll-loop state
//! machine, and command-line mode selection. All host MIDI I/O lives outside
//! the library and hands it plain values.

pub mod capture;
pub mod cli;
pub mod device;
pub mod message;
pub mod report;
