//! Log lines, sent as plain text to the log group:
//! `INFO;0x<identifier, sixteen hexadecimal digits>;<microseconds since the
//! epoch>;<message>`, and the same with `ERROR`.

use vstd::prelude::*;
use vstd::string::StringExecFns;
use vstd::string::StrSliceExecFns;
use vstd::utf8::encode_utf8;
use crate::error::ErrorKind;
use crate::format::{decimal, decimal_digits, hex16, hex_digits};
use crate::interfaces::{get_over_interface_by_name, group_of, has_name};
use crate::node::{MulticastDatagram, Node};
use crate::time::get_current_timestamp;

verus! {

/// The log line of a node for a message at a time.
pub open spec fn log_line(level: Seq<char>, nid: u64, timestamp: u64, message: Seq<char>) -> Seq<
    char,
> {
    level + ";0x"@ + hex_digits(nid) + ";"@ + decimal_digits(timestamp as nat) + ";"@ + message
}

/// The line with which a node reports its control block at the end:
/// `PCB;<topology tag>;<the block as JSON>`.
pub open spec fn pcb_report_of(topology: u64, json: Seq<char>) -> Seq<char> {
    "PCB;"@ + decimal_digits(topology as nat) + ";"@ + json
}

/// Formats a log line: see `log_line`.
pub fn format_log(level: &str, nid: u64, timestamp: u64, message: &str) -> (line: String)
    ensures
        line@ == log_line(level@, nid, timestamp, message@),
{
    let mut line = String::from_str(level);
    line.append(";0x");
    let hex = hex16(nid);
    line.append(hex.as_str());
    line.append(";");
    let time = decimal(timestamp);
    line.append(time.as_str());
    line.append(";");
    line.append(message);
    line
}

/// Formats the report of the control block: see `pcb_report_of`.
pub fn pcb_report(topology: u64, json: &str) -> (line: String)
    ensures
        line@ == pcb_report_of(topology, json@),
{
    let mut line = String::from_str("PCB;");
    let tag = decimal(topology);
    line.append(tag.as_str());
    line.append(";");
    line.append(json);
    line
}

/// Whether `d` is the log line of `node` for `message` at `timestamp`,
/// for the log group.
pub open spec fn is_log_datagram(
    d: MulticastDatagram,
    node: Node,
    level: Seq<char>,
    timestamp: u64,
    message: Seq<char>,
) -> bool {
    &&& d.counts is None
    &&& d.interface@ == "log"@
    &&& d.group == group_of(node.interfaces@, "log"@)
    &&& d.bytes@ == encode_utf8(log_line(level, node.local.local_nid, timestamp, message))
}

/// The log line of `node` for `message` at `timestamp`, for the log
/// group. Fails with `ConfigError` exactly when the node has no log
/// interface.
pub fn log_at(node: &Node, level: &str, timestamp: u64, message: &str) -> (r: Result<
    MulticastDatagram,
    ErrorKind,
>)
    ensures
        has_name(node.interfaces@, "log"@) ==> r is Ok && is_log_datagram(
            r->Ok_0,
            *node,
            level@,
            timestamp,
            message@,
        ),
        !has_name(node.interfaces@, "log"@) ==> r is Err && r->Err_0 == ErrorKind::ConfigError,
{
    let interface = String::from_str("log");
    match get_over_interface_by_name(&node.interfaces, &interface) {
        Ok(found) => {
            let line = format_log(level, node.local.local_nid, timestamp, message);
            Ok(
                MulticastDatagram {
                    interface,
                    group: found.1,
                    bytes: line.as_str().as_bytes_vec(),
                    counts: None,
                },
            )
        },
        Err(e) => Err(e),
    }
}

/// A step of logging, whatever the clock says: a line for the present
/// moment, or `ConfigError` if the clock cannot be read or the node has no
/// log interface.
pub open spec fn logged(
    node: Node,
    level: Seq<char>,
    message: Seq<char>,
    r: Result<MulticastDatagram, ErrorKind>,
) -> bool {
    match r {
        Ok(d) => has_name(node.interfaces@, "log"@) && exists|timestamp: u64| #[trigger]
            is_log_datagram(d, node, level, timestamp, message),
        Err(e) => e == ErrorKind::ConfigError,
    }
}

/// The line that reports `info_message` now: see `logged`.
pub fn log_info(node: &Node, info_message: &str) -> (r: Result<MulticastDatagram, ErrorKind>)
    ensures
        logged(*node, "INFO"@, info_message@, r),
{
    match get_current_timestamp() {
        Ok(timestamp) => {
            let r = log_at(node, "INFO", timestamp, info_message);
            if r.is_ok() {
                assert(is_log_datagram(r->Ok_0, *node, "INFO"@, timestamp, info_message@));
            }
            r
        },
        Err(e) => Err(e),
    }
}

/// The line that reports the error `error_message` now: see `logged`.
pub fn log_error(node: &Node, error_message: &str) -> (r: Result<MulticastDatagram, ErrorKind>)
    ensures
        logged(*node, "ERROR"@, error_message@, r),
{
    match get_current_timestamp() {
        Ok(timestamp) => {
            let r = log_at(node, "ERROR", timestamp, error_message);
            if r.is_ok() {
                assert(is_log_datagram(r->Ok_0, *node, "ERROR"@, timestamp, error_message@));
            }
            r
        },
        Err(e) => Err(e),
    }
}

} // verus!
