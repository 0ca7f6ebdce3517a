//! Derivation of a peer's directory-visible network address: the peer IP of
//! the accepted connection, rendered in decimal, with the fixed well-known
//! listening port 5000 appended — the ephemeral source port of the
//! connection is discarded, since peers listen for each other on that one
//! port.

use vstd::prelude::*;
use vstd::string::StringExecFns;

verus! {

/// The decimal digit character for `d`.
pub open spec fn digit_char(d: int) -> char {
    if d == 0 {
        '0'
    } else if d == 1 {
        '1'
    } else if d == 2 {
        '2'
    } else if d == 3 {
        '3'
    } else if d == 4 {
        '4'
    } else if d == 5 {
        '5'
    } else if d == 6 {
        '6'
    } else if d == 7 {
        '7'
    } else if d == 8 {
        '8'
    } else {
        '9'
    }
}

/// The decimal rendering of `n`, most significant digit first, without
/// leading zeros.
pub open spec fn spec_dec(n: nat) -> Seq<char>
    decreases n,
{
    if n < 10 {
        seq![digit_char(n as int)]
    } else {
        spec_dec(n / 10) + seq![digit_char((n % 10) as int)]
    }
}

/// The "a.b.c.d:5000" rendering of a peer's four address octets.
pub open spec fn spec_addr_v4(o: Seq<u8>) -> Seq<char> {
    spec_dec(o[0] as nat) + "."@ + spec_dec(o[1] as nat) + "."@ + spec_dec(o[2] as nat) + "."@
        + spec_dec(o[3] as nat) + ":5000"@
}

/// The dot-joined decimal rendering of a peer's eight address segments,
/// with ":5000" appended.
pub open spec fn spec_addr_v6(s: Seq<u16>) -> Seq<char> {
    spec_dec(s[0] as nat) + "."@ + spec_dec(s[1] as nat) + "."@ + spec_dec(s[2] as nat) + "."@
        + spec_dec(s[3] as nat) + "."@ + spec_dec(s[4] as nat) + "."@ + spec_dec(s[5] as nat)
        + "."@ + spec_dec(s[6] as nat) + "."@ + spec_dec(s[7] as nat) + ":5000"@
}

fn digit_str(d: u16) -> (r: &'static str)
    requires
        d < 10,
    ensures
        r@ == seq![digit_char(d as int)],
{
    if d == 0 {
        proof {
            reveal_strlit("0");
            assert("0"@ =~= seq![digit_char(0)]);
        }
        "0"
    } else if d == 1 {
        proof {
            reveal_strlit("1");
            assert("1"@ =~= seq![digit_char(1)]);
        }
        "1"
    } else if d == 2 {
        proof {
            reveal_strlit("2");
            assert("2"@ =~= seq![digit_char(2)]);
        }
        "2"
    } else if d == 3 {
        proof {
            reveal_strlit("3");
            assert("3"@ =~= seq![digit_char(3)]);
        }
        "3"
    } else if d == 4 {
        proof {
            reveal_strlit("4");
            assert("4"@ =~= seq![digit_char(4)]);
        }
        "4"
    } else if d == 5 {
        proof {
            reveal_strlit("5");
            assert("5"@ =~= seq![digit_char(5)]);
        }
        "5"
    } else if d == 6 {
        proof {
            reveal_strlit("6");
            assert("6"@ =~= seq![digit_char(6)]);
        }
        "6"
    } else if d == 7 {
        proof {
            reveal_strlit("7");
            assert("7"@ =~= seq![digit_char(7)]);
        }
        "7"
    } else if d == 8 {
        proof {
            reveal_strlit("8");
            assert("8"@ =~= seq![digit_char(8)]);
        }
        "8"
    } else {
        proof {
            reveal_strlit("9");
            assert("9"@ =~= seq![digit_char(9)]);
        }
        "9"
    }
}

/// Renders `n` in decimal, most significant digit first.
pub fn dec_str(n: u16) -> (r: String)
    ensures
        r@ == spec_dec(n as nat),
    decreases n,
{
    if n < 10 {
        String::from_str(digit_str(n))
    } else {
        let prefix = dec_str(n / 10);
        prefix.concat(digit_str(n % 10))
    }
}

/// The directory-visible address of a peer connecting from a four-octet
/// address: its IP in dotted decimal with the fixed listening port.
pub fn format_addr_v4(o: &[u8; 4]) -> (r: String)
    ensures
        r@ == spec_addr_v4(o@),
{
    dec_str(o[0] as u16).concat(".").concat(dec_str(o[1] as u16).as_str()).concat(".").concat(
        dec_str(o[2] as u16).as_str(),
    ).concat(".").concat(dec_str(o[3] as u16).as_str()).concat(":5000")
}

/// The directory-visible address of a peer connecting from an eight-segment
/// address: its segments dot-joined in decimal with the fixed listening
/// port.
pub fn format_addr_v6(s: &[u16; 8]) -> (r: String)
    ensures
        r@ == spec_addr_v6(s@),
{
    dec_str(s[0]).concat(".").concat(dec_str(s[1]).as_str()).concat(".").concat(
        dec_str(s[2]).as_str(),
    ).concat(".").concat(dec_str(s[3]).as_str()).concat(".").concat(dec_str(s[4]).as_str()).concat(
        ".",
    ).concat(dec_str(s[5]).as_str()).concat(".").concat(dec_str(s[6]).as_str()).concat(
        ".",
    ).concat(dec_str(s[7]).as_str()).concat(":5000")
}

} // verus!
