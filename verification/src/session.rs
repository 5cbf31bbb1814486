//! The poll interest of an SSH session.
use vstd::prelude::*;

verus! {

/// `libc::POLLIN` ("there is data to read"); the constant is `0x1` in the
/// `libc` sources for Linux and the BSDs (macOS included).
#[verifier::external_body]
fn libc_pollin() -> (flag: i16)
    ensures
        flag == 0x1,
{
    libc::POLLIN
}

/// `libc::POLLOUT` ("writing is possible"); the constant is `0x4` in the
/// `libc` sources for Linux and the BSDs (macOS included).
#[verifier::external_body]
fn libc_pollout() -> (flag: i16)
    ensures
        flag == 0x4,
{
    libc::POLLOUT
}

/// The value of `POLLIN`.
pub open spec fn poll_in() -> i16 {
    0x1
}

/// The value of `POLLOUT`.
pub open spec fn poll_out() -> i16 {
    0x4
}

/// The `poll(2)` events to wait for on the session's socket.
pub open spec fn spec_poll_flags(read_pending: bool, write_pending: bool) -> i16 {
    match (read_pending, write_pending) {
        (false, false) => 0,
        (true, false) => poll_in(),
        (false, true) => poll_out(),
        (true, true) => poll_in() | poll_out(),
    }
}

/// The `poll(2)` events to wait for, given in which directions the session
/// is blocked: reading (inbound) and writing (outbound).
pub fn get_poll_flags(read_pending: bool, write_pending: bool) -> (flags: i16)
    ensures
        flags == spec_poll_flags(read_pending, write_pending),
{
    match (read_pending, write_pending) {
        (false, false) => 0,
        (true, false) => libc_pollin(),
        (false, true) => libc_pollout(),
        (true, true) => libc_pollin() | libc_pollout(),
    }
}

/// The poll flags ask for reading exactly when reading is pending and for
/// writing exactly when writing is pending, and for nothing else.
pub proof fn law_poll_flags_follow_directions(read_pending: bool, write_pending: bool)
    ensures
        (spec_poll_flags(read_pending, write_pending) & 0x1 != 0) == read_pending,
        (spec_poll_flags(read_pending, write_pending) & 0x4 != 0) == write_pending,
        spec_poll_flags(read_pending, write_pending) & !0x5i16 == 0,
{
    assert(0i16 & 0x1 == 0 && 0i16 & 0x4 == 0 && 0i16 & !0x5i16 == 0) by (bit_vector);
    assert(0x1i16 & 0x1 != 0 && 0x1i16 & 0x4 == 0 && 0x1i16 & !0x5i16 == 0) by (bit_vector);
    assert(0x4i16 & 0x1 == 0 && 0x4i16 & 0x4 != 0 && 0x4i16 & !0x5i16 == 0) by (bit_vector);
    assert((0x1i16 | 0x4i16) & 0x1 != 0 && (0x1i16 | 0x4i16) & 0x4 != 0 && (0x1i16 | 0x4i16)
        & !0x5i16 == 0) by (bit_vector);
}

} // verus!
