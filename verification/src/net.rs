//! Transport addressing: the SCTP ports and payload protocol identifiers of
//! the three interfaces, and the textual form of a socket address.

use vstd::prelude::*;

verus! {

/// SCTP payload protocol identifier of NGAP.
pub const NGAP_SCTP_PPID: u32 = 60;

pub const NGAP_BIND_PORT: u16 = 38412;

/// SCTP payload protocol identifier of F1AP.
pub const F1AP_SCTP_PPID: u32 = 62;

pub const F1AP_BIND_PORT: u16 = 38472;

/// SCTP payload protocol identifier of E1AP.
pub const E1AP_SCTP_PPID: u32 = 64;

pub const E1AP_BIND_PORT: u16 = 38462;

/// The character that writes the digit `d`.
pub open spec fn digit_char(d: int) -> char {
    if d == 0 {
        '0'
    } else if d == 1 {
        '1'
    } else if d == 2 {
        '2'
    } else if d == 3 {
        '3'
    } else if d == 4 {
        '4'
    } else if d == 5 {
        '5'
    } else if d == 6 {
        '6'
    } else if d == 7 {
        '7'
    } else if d == 8 {
        '8'
    } else {
        '9'
    }
}

/// `n` written in base ten, without leading zeros.
pub open spec fn decimal(n: nat) -> Seq<char>
    decreases n,
{
    if n < 10 {
        seq![digit_char(n as int)]
    } else {
        decimal(n / 10).push(digit_char((n % 10) as int))
    }
}

/// `ip`, a colon, and `port` in base ten.
pub open spec fn socket_address_spec(ip: Seq<char>, port: u16) -> Seq<char> {
    ip + seq![':'] + decimal(port as nat)
}

fn digit_str(d: u16) -> (s: &'static str)
    requires
        d < 10,
    ensures
        s@ == seq![digit_char(d as int)],
{
    proof {
        reveal_strlit("0");
        reveal_strlit("1");
        reveal_strlit("2");
        reveal_strlit("3");
        reveal_strlit("4");
        reveal_strlit("5");
        reveal_strlit("6");
        reveal_strlit("7");
        reveal_strlit("8");
        reveal_strlit("9");
    }
    let s = if d == 0 {
        "0"
    } else if d == 1 {
        "1"
    } else if d == 2 {
        "2"
    } else if d == 3 {
        "3"
    } else if d == 4 {
        "4"
    } else if d == 5 {
        "5"
    } else if d == 6 {
        "6"
    } else if d == 7 {
        "7"
    } else if d == 8 {
        "8"
    } else {
        "9"
    };
    assert(s@ =~= seq![digit_char(d as int)]);
    s
}

/// Appends `n` in base ten to `s`.
pub fn push_decimal(s: &mut String, n: u16)
    ensures
        final(s)@ == old(s)@ + decimal(n as nat),
    decreases n,
{
    if n >= 10 {
        push_decimal(s, n / 10);
    }
    s.append(digit_str(n % 10));
    proof {
        let d = seq![digit_char((n % 10) as int)];
        if n >= 10 {
            assert(old(s)@ + decimal((n / 10) as nat) + d =~= old(s)@ + decimal(
                (n / 10) as nat,
            ).push(digit_char((n % 10) as int)));
        }
    }
}

/// The address of the socket at `port` of the host `ip`.
pub fn socket_address(ip: &str, port: u16) -> (address: String)
    ensures
        address@ == socket_address_spec(ip@, port),
{
    let mut address = String::from_str(ip);
    proof {
        reveal_strlit(":");
    }
    address.append(":");
    push_decimal(&mut address, port);
    assert(":"@ =~= seq![':']);
    address
}

/// What it takes to open an association to a peer.
#[derive(Debug, Clone, PartialEq, Eq)]
pub struct ConnectRequest {
    pub remote_address: String,
    pub bind_address: String,
    pub ppid: u32,
}

/// What it takes to accept associations from peers.
#[derive(Debug, Clone, PartialEq, Eq)]
pub struct ListenRequest {
    pub address: String,
    pub ppid: u32,
}

} // verus!
