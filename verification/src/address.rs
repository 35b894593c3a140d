//! Socket addresses as plain data, and the textual forms the harness needs.
//!
//! The harness only ever reads two things from an address: the host's
//! textual form and the port. Both are held here as plain values so that
//! URL construction can be verified; the runtime converts between this type
//! and the operating system's socket address type at its edge.

use vstd::prelude::*;
use vstd::string::StringExecFns;

verus! {

/// The decimal digit character for a value below ten.
pub open spec fn decimal_digit(d: nat) -> char {
    if d == 0 {
        '0'
    } else if d == 1 {
        '1'
    } else if d == 2 {
        '2'
    } else if d == 3 {
        '3'
    } else if d == 4 {
        '4'
    } else if d == 5 {
        '5'
    } else if d == 6 {
        '6'
    } else if d == 7 {
        '7'
    } else if d == 8 {
        '8'
    } else {
        '9'
    }
}

/// The usual decimal rendering of `n`: most significant digit first, no
/// leading zeros (a lone zero for `n == 0`).
pub open spec fn decimal_seq(n: nat) -> Seq<char>
    decreases n,
{
    if n < 10 {
        seq![decimal_digit(n)]
    } else {
        decimal_seq(n / 10) + seq![decimal_digit(n % 10)]
    }
}

/// The single-character string for a decimal digit.
fn decimal_digit_str(d: u16) -> (s: &'static str)
    requires
        d < 10,
    ensures
        s@ == seq![decimal_digit(d as nat)],
{
    proof {
        reveal_strlit("0");
        reveal_strlit("1");
        reveal_strlit("2");
        reveal_strlit("3");
        reveal_strlit("4");
        reveal_strlit("5");
        reveal_strlit("6");
        reveal_strlit("7");
        reveal_strlit("8");
        reveal_strlit("9");
    }
    let s: &'static str = if d == 0 {
        "0"
    } else if d == 1 {
        "1"
    } else if d == 2 {
        "2"
    } else if d == 3 {
        "3"
    } else if d == 4 {
        "4"
    } else if d == 5 {
        "5"
    } else if d == 6 {
        "6"
    } else if d == 7 {
        "7"
    } else if d == 8 {
        "8"
    } else {
        "9"
    };
    proof {
        assert(s@ =~= seq![decimal_digit(d as nat)]);
    }
    s
}

/// Renders `n` in decimal.
pub fn format_decimal(n: u16) -> (s: String)
    ensures
        s@ == decimal_seq(n as nat),
    decreases n,
{
    if n < 10 {
        decimal_digit_str(n).to_owned()
    } else {
        let mut s = format_decimal(n / 10);
        s.append(decimal_digit_str(n % 10));
        s
    }
}

/// A socket address as the harness sees it: the host's textual form, the
/// port, and whether the host is an IPv6 address (and so is bracketed when
/// the address is written out).
#[derive(Debug, PartialEq, Eq)]
pub struct SocketAddress {
    pub host: String,
    pub port: u16,
    pub v6: bool,
}

impl SocketAddress {
    /// The textual form of the address: `host:port`, with the host in
    /// square brackets when it is an IPv6 address.
    pub open spec fn text_view(self) -> Seq<char> {
        if self.v6 {
            seq!['['] + self.host@ + seq![']', ':'] + decimal_seq(self.port as nat)
        } else {
            self.host@ + seq![':'] + decimal_seq(self.port as nat)
        }
    }

    /// Writes the address out as text.
    pub fn to_text(&self) -> (s: String)
        ensures
            s@ == self.text_view(),
    {
        proof {
            reveal_strlit("[");
            reveal_strlit("]:");
            reveal_strlit(":");
        }
        let mut s = String::new();
        if self.v6 {
            s.append("[");
            s.append(self.host.as_str());
            s.append("]:");
        } else {
            s.append(self.host.as_str());
            s.append(":");
        }
        let digits = format_decimal(self.port);
        s.append(digits.as_str());
        proof {
            assert(s@ =~= self.text_view());
        }
        s
    }

    /// A copy of the address, equal field by field.
    pub fn duplicate(&self) -> (a: SocketAddress)
        ensures
            a.host@ == self.host@,
            a.port == self.port,
            a.v6 == self.v6,
            a.text_view() == self.text_view(),
    {
        SocketAddress { host: self.host.clone(), port: self.port, v6: self.v6 }
    }
}

/// The view of `http://` followed by the address's textual form.
pub open spec fn http_url_view(address: SocketAddress) -> Seq<char> {
    seq!['h', 't', 't', 'p', ':', '/', '/'] + address.text_view()
}

/// Builds the base URL for a service listening on `address`.
pub fn http_url(address: &SocketAddress) -> (url: String)
    ensures
        url@ == http_url_view(*address),
{
    proof {
        reveal_strlit("http://");
    }
    let mut url = String::new();
    url.append("http://");
    let text = address.to_text();
    url.append(text.as_str());
    proof {
        assert(url@ =~= http_url_view(*address));
    }
    url
}

} // verus!
