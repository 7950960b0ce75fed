use vstd::prelude::*;
use vstd::string::StringExecFns;

verus! {

/// What the lookup service tells about the caller's address.
///
/// Coordinates are kept as whole multiples of one ten-millionth of a degree,
/// which is finer than the four decimals that are shown.
#[derive(Clone, Debug, PartialEq, Eq)]
pub struct IpInfo {
    pub ip: String,
    pub city: String,
    pub region: String,
    pub postal_code: String,
    pub country: String,
    pub isp: String,
    pub asn: u32,
    pub timezone: String,
    pub latitude_e7: i64,
    pub longitude_e7: i64,
}

/// The lookup service asked when no other is configured.
pub const DEFAULT_URL: &'static str = "https://ip.shnitzel.org";

/// The character of a decimal digit.
pub open spec fn digit_char(d: nat) -> char {
    if d == 0 { '0' }
    else if d == 1 { '1' }
    else if d == 2 { '2' }
    else if d == 3 { '3' }
    else if d == 4 { '4' }
    else if d == 5 { '5' }
    else if d == 6 { '6' }
    else if d == 7 { '7' }
    else if d == 8 { '8' }
    else { '9' }
}

/// The decimal digits of `n`, most significant first, with no leading zeros.
pub open spec fn decimal(n: nat) -> Seq<char>
    decreases n,
{
    if n < 10 {
        seq![digit_char(n)]
    } else {
        decimal(n / 10) + seq![digit_char(n % 10)]
    }
}

/// The address of one lookup: the endpoint with the time as a query, so that
/// no cache along the way answers in the service's place.
pub open spec fn request_url_of(base: Seq<char>, timestamp: u64) -> Seq<char> {
    base + "?t="@ + decimal(timestamp as nat)
}

fn digit_str(d: u64) -> (r: &'static str)
    requires
        d < 10,
    ensures
        r@ == seq![digit_char(d as nat)],
{
    proof {
        reveal_strlit("0");
        reveal_strlit("1");
        reveal_strlit("2");
        reveal_strlit("3");
        reveal_strlit("4");
        reveal_strlit("5");
        reveal_strlit("6");
        reveal_strlit("7");
        reveal_strlit("8");
        reveal_strlit("9");
    }
    let r = if d == 0 { "0" }
    else if d == 1 { "1" }
    else if d == 2 { "2" }
    else if d == 3 { "3" }
    else if d == 4 { "4" }
    else if d == 5 { "5" }
    else if d == 6 { "6" }
    else if d == 7 { "7" }
    else if d == 8 { "8" }
    else { "9" };
    assert(r@ =~= seq![digit_char(d as nat)]);
    r
}

fn push_decimal(out: &mut String, n: u64)
    ensures
        final(out)@ == old(out)@ + decimal(n as nat),
    decreases n,
{
    if n >= 10 {
        push_decimal(out, n / 10);
    }
    out.append(digit_str(n % 10));
    proof {
        if n >= 10 {
            assert(old(out)@ + decimal(n as nat) =~= old(out)@ + decimal((n / 10) as nat)
                + seq![digit_char((n % 10) as nat)]);
        }
    }
}

/// The endpoint to ask: the configured one if there is one, else [`DEFAULT_URL`].
pub fn endpoint(configured: Option<String>) -> (r: String)
    ensures
        r@ == (match configured {
            Some(s) => s@,
            None => DEFAULT_URL@,
        }),
{
    match configured {
        Some(s) => s,
        None => String::from_str(DEFAULT_URL),
    }
}

/// The address of one lookup at `timestamp`, in whole seconds since the Unix epoch.
pub fn request_url(base: &str, timestamp: u64) -> (r: String)
    ensures
        r@ == request_url_of(base@, timestamp),
{
    let mut url = String::from_str(base);
    url.append("?t=");
    push_decimal(&mut url, timestamp);
    url
}

} // verus!
