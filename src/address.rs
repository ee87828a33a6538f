use vstd::prelude::*;

verus! {

/// The decimal digit characters, indexed by their value.
pub open spec fn digit_chars() -> Seq<char> {
    seq!['0', '1', '2', '3', '4', '5', '6', '7', '8', '9']
}

/// The decimal text of `n`, without leading zeros.
pub open spec fn decimal(n: nat) -> Seq<char>
    decreases n,
{
    if n < 10 {
        seq![digit_chars()[n as int]]
    } else {
        decimal(n / 10) + seq![digit_chars()[(n % 10) as int]]
    }
}

/// The address that an outbound connection to `host` and `port` is opened on.
pub open spec fn uri_of(host: Seq<char>, port: nat) -> Seq<char> {
    seq!['h', 't', 't', 'p', ':', '/', '/'] + host + seq![':'] + decimal(port)
}

fn digit_text(d: u16) -> (r: &'static str)
    requires
        d < 10,
    ensures
        r@ == seq![digit_chars()[d as int]],
{
    proof {
        reveal_strlit("0");
        reveal_strlit("1");
        reveal_strlit("2");
        reveal_strlit("3");
        reveal_strlit("4");
        reveal_strlit("5");
        reveal_strlit("6");
        reveal_strlit("7");
        reveal_strlit("8");
        reveal_strlit("9");
    }
    match d {
        0 => "0",
        1 => "1",
        2 => "2",
        3 => "3",
        4 => "4",
        5 => "5",
        6 => "6",
        7 => "7",
        8 => "8",
        _ => "9",
    }
}

fn append_decimal(out: &mut String, n: u16)
    ensures
        final(out)@ == old(out)@ + decimal(n as nat),
    decreases n,
{
    if n >= 10 {
        append_decimal(out, n / 10);
    }
    out.append(digit_text(n % 10));
    proof {
        assert(old(out)@ + decimal(n as nat) =~= if n >= 10 {
            old(out)@ + decimal((n / 10) as nat) + seq![digit_chars()[(n % 10) as int]]
        } else {
            old(out)@ + seq![digit_chars()[(n % 10) as int]]
        });
    }
}

/// The decimal text of a port number.
pub fn port_text(port: u16) -> (r: String)
    ensures
        r@ == decimal(port as nat),
{
    let mut out = String::new();
    append_decimal(&mut out, port);
    proof {
        assert(out@ =~= decimal(port as nat));
    }
    out
}

/// The address of the peer at `host` and `port`: `http://host:port`.
pub fn endpoint_uri(host: &str, port: u16) -> (r: String)
    ensures
        r@ == uri_of(host@, port as nat),
{
    let mut out = String::from_str("http://");
    proof {
        reveal_strlit("http://");
        reveal_strlit(":");
    }
    out.append(host);
    out.append(":");
    let digits = port_text(port);
    out.append(digits.as_str());
    proof {
        assert(out@ =~= uri_of(host@, port as nat));
    }
    out
}

} // verus!
