//! Endpoints given as `host:port` text. The port is the decimal number after
//! the last colon; the host is the text before it, either a name or address
//! without colons and brackets, or an address in brackets (`[::1]`), which may
//! hold colons.

use vstd::prelude::*;
use vstd::string::StringSliceAdditionalSpecFns;

verus! {

/// Why endpoint text was refused.
#[derive(Clone, Copy, Debug, PartialEq, Eq, Structural)]
pub enum EndpointError {
    /// The text holds no colon, so no port.
    MissingPort,
    /// What follows the last colon is not a decimal number up to 65535.
    BadPort,
    /// What precedes the last colon is not a host.
    BadHost,
}

/// A host and a port, checked but not yet resolved.
pub struct Endpoint {
    /// The host, without brackets.
    pub host: Vec<u8>,
    pub port: u16,
}

pub open spec fn is_digit(b: u8) -> bool {
    48 <= b <= 57
}

/// The number that a sequence of decimal digits spells.
pub open spec fn decimal_value(s: Seq<u8>) -> nat
    decreases s.len(),
{
    if s.len() == 0 {
        0
    } else {
        decimal_value(s.drop_last()) * 10 + (s.last() - 48) as nat
    }
}

pub open spec fn is_port_text(s: Seq<u8>) -> bool {
    &&& s.len() > 0
    &&& forall|i: int| 0 <= i < s.len() ==> is_digit(#[trigger] s[i])
    &&& decimal_value(s) <= 65535
}

/// `[`, `]` or `:`.
pub open spec fn is_delimiter(b: u8) -> bool {
    b == 91 || b == 93 || b == 58
}

/// A host in brackets: `[`, then at least one byte that is no bracket, then `]`.
pub open spec fn is_bracketed_host(h: Seq<u8>) -> bool {
    &&& h.len() >= 3
    &&& h[0] == 91
    &&& h.last() == 93
    &&& forall|i: int| 1 <= i < h.len() - 1 ==> #[trigger] h[i] != 91 && h[i] != 93
}

pub open spec fn is_plain_host(h: Seq<u8>) -> bool {
    &&& h.len() > 0
    &&& forall|i: int| 0 <= i < h.len() ==> !is_delimiter(#[trigger] h[i])
}

/// The host that host text names.
pub open spec fn host_of(h: Seq<u8>) -> Seq<u8> {
    if is_bracketed_host(h) {
        h.subrange(1, h.len() - 1)
    } else {
        h
    }
}

/// The index of the last colon, or -1 when there is none.
pub open spec fn last_colon(s: Seq<u8>) -> int
    decreases s.len(),
{
    if s.len() == 0 {
        -1
    } else if s.last() == 58 {
        s.len() - 1
    } else {
        last_colon(s.drop_last())
    }
}

/// The host and port that endpoint text gives, or why it gives none.
pub open spec fn endpoint_spec(s: Seq<u8>) -> Result<(Seq<u8>, u16), EndpointError> {
    let k = last_colon(s);
    let host = s.subrange(0, k);
    let port = s.subrange(k + 1, s.len() as int);
    if k < 0 {
        Err(EndpointError::MissingPort)
    } else if !is_port_text(port) {
        Err(EndpointError::BadPort)
    } else if !(is_plain_host(host) || is_bracketed_host(host)) {
        Err(EndpointError::BadHost)
    } else {
        Ok((host_of(host), decimal_value(port) as u16))
    }
}

proof fn lemma_last_colon(s: Seq<u8>, k: int)
    requires
        -1 <= k < s.len(),
        k >= 0 ==> s[k] == 58,
        forall|j: int| k < j < s.len() ==> #[trigger] s[j] != 58,
    ensures
        last_colon(s) == k,
    decreases s.len(),
{
    if s.len() > 0 && k < s.len() - 1 {
        assert forall|j: int| k < j < s.drop_last().len() implies #[trigger] s.drop_last()[j] != 58 by {
            assert(s.drop_last()[j] == s[j]);
        }
        lemma_last_colon(s.drop_last(), k);
    }
}

proof fn lemma_decimal_grows(s: Seq<u8>, j: int)
    requires
        0 <= j <= s.len(),
        forall|i: int| 0 <= i < s.len() ==> is_digit(#[trigger] s[i]),
    ensures
        decimal_value(s.subrange(0, j)) <= decimal_value(s),
    decreases s.len(),
{
    if j < s.len() {
        assert(s.drop_last().subrange(0, j) =~= s.subrange(0, j));
        assert forall|i: int| 0 <= i < s.drop_last().len() implies is_digit(#[trigger] s.drop_last()[i]) by {
            assert(s.drop_last()[i] == s[i]);
        }
        lemma_decimal_grows(s.drop_last(), j);
    } else {
        assert(s.subrange(0, j) =~= s);
    }
}

/// The index just past the last colon in `b`, where the port starts, if there
/// is a colon.
fn port_start(b: &[u8]) -> (r: Option<usize>)
    ensures
        r is None <==> last_colon(b@) < 0,
        r is Some ==> r->0 == last_colon(b@) + 1 && r->0 <= b@.len(),
{
    let mut k: usize = b.len();
    while k > 0 && b[k - 1] != 58
        invariant
            k <= b@.len(),
            forall|j: int| k <= j < b@.len() ==> #[trigger] b@[j] != 58,
        decreases k,
    {
        k = k - 1;
    }
    proof {
        lemma_last_colon(b@, k - 1);
    }
    if k == 0 {
        None
    } else {
        Some(k)
    }
}

/// The port spelled by `b[from..]`, if it is port text.
fn parse_port(b: &[u8], from: usize) -> (r: Option<u16>)
    requires
        from <= b@.len(),
    ensures
        r is Some <==> is_port_text(b@.subrange(from as int, b@.len() as int)),
        r is Some ==> r->0 == decimal_value(b@.subrange(from as int, b@.len() as int)),
{
    let ghost port = b@.subrange(from as int, b@.len() as int);
    if from == b.len() {
        return None;
    }
    let mut v: u32 = 0;
    let mut i: usize = from;
    while i < b.len()
        invariant
            from <= i <= b@.len(),
            port == b@.subrange(from as int, b@.len() as int),
            forall|j: int| from <= j < i ==> is_digit(#[trigger] b@[j]),
            v == decimal_value(b@.subrange(from as int, i as int)),
            v <= 65535,
        decreases b@.len() - i,
    {
        let d = b[i];
        if d < 48 || d > 57 {
            assert(port[i - from] == d);
            return None;
        }
        assert(b@.subrange(from as int, i + 1).drop_last() =~= b@.subrange(from as int, i as int));
        let w = v * 10 + (d - 48) as u32;
        if w > 65535 {
            proof {
                if forall|j: int| 0 <= j < port.len() ==> is_digit(#[trigger] port[j]) {
                    assert(port.subrange(0, i + 1 - from) =~= b@.subrange(from as int, i + 1));
                    lemma_decimal_grows(port, i + 1 - from);
                }
            }
            return None;
        }
        v = w;
        i = i + 1;
    }
    assert(b@.subrange(from as int, i as int) =~= port);
    assert forall|j: int| 0 <= j < port.len() implies is_digit(#[trigger] port[j]) by {
        assert(port[j] == b@[from + j]);
    }
    Some(v as u16)
}

/// A copy of `b[lo..hi]`.
fn copy_range(b: &[u8], lo: usize, hi: usize) -> (r: Vec<u8>)
    requires
        lo <= hi <= b@.len(),
    ensures
        r@ == b@.subrange(lo as int, hi as int),
{
    let mut r: Vec<u8> = Vec::new();
    let mut i: usize = lo;
    while i < hi
        invariant
            lo <= i <= hi <= b@.len(),
            r@ == b@.subrange(lo as int, i as int),
        decreases hi - i,
    {
        r.push(b[i]);
        i = i + 1;
    }
    r
}

/// Whether `b[lo..hi]` holds none of the bytes `x` and `y`.
fn lacks(b: &[u8], lo: usize, hi: usize, x: u8, y: u8) -> (r: bool)
    requires
        lo <= hi <= b@.len(),
    ensures
        r == forall|i: int| lo <= i < hi ==> #[trigger] b@[i] != x && b@[i] != y,
{
    let mut i: usize = lo;
    while i < hi
        invariant
            lo <= i <= hi <= b@.len(),
            forall|j: int| lo <= j < i ==> #[trigger] b@[j] != x && b@[j] != y,
        decreases hi - i,
    {
        if b[i] == x || b[i] == y {
            return false;
        }
        i = i + 1;
    }
    true
}

/// The host named by `b[..k]`, if it is host text.
fn parse_host(b: &[u8], k: usize) -> (r: Option<Vec<u8>>)
    requires
        k <= b@.len(),
    ensures
        r is Some <==> is_plain_host(b@.subrange(0, k as int)) || is_bracketed_host(b@.subrange(0, k as int)),
        r is Some ==> r->0@ == host_of(b@.subrange(0, k as int)),
{
    let ghost h = b@.subrange(0, k as int);
    if k >= 3 && b[0] == 91 && b[k - 1] == 93 {
        if lacks(b, 1, k - 1, 91, 93) {
            assert(is_bracketed_host(h)) by {
                assert forall|i: int| 1 <= i < h.len() - 1 implies #[trigger] h[i] != 91 && h[i] != 93 by {
                    assert(h[i] == b@[i]);
                }
            }
            let r = copy_range(b, 1, k - 1);
            assert(r@ =~= h.subrange(1, h.len() - 1));
            Some(r)
        } else {
            assert(!is_bracketed_host(h)) by {
                let i = choose|i: int| 1 <= i < k - 1 && !(#[trigger] b@[i] != 91 && b@[i] != 93);
                assert(h[i] == b@[i]);
            }
            assert(!is_plain_host(h)) by {
                assert(h[0] == 91);
            }
            None
        }
    } else {
        let plain = k > 0 && lacks(b, 0, k, 91, 93) && lacks(b, 0, k, 58, 58);
        assert(!is_bracketed_host(h)) by {
            if k >= 3 {
                assert(h[0] == b@[0]);
                assert(h.last() == b@[k - 1]);
            }
        }
        if plain {
            assert(is_plain_host(h)) by {
                assert forall|i: int| 0 <= i < h.len() implies !is_delimiter(#[trigger] h[i]) by {
                    assert(h[i] == b@[i]);
                }
            }
            let r = copy_range(b, 0, k);
            assert(r@ =~= h);
            Some(r)
        } else {
            assert(!is_plain_host(h)) by {
                if is_plain_host(h) {
                    assert forall|i: int| 0 <= i < k implies #[trigger] b@[i] != 91 && b@[i] != 93 by {
                        assert(h[i] == b@[i]);
                    }
                    assert forall|i: int| 0 <= i < k implies #[trigger] b@[i] != 58 && b@[i] != 58 by {
                        assert(h[i] == b@[i]);
                    }
                }
            }
            None
        }
    }
}

/// Checks endpoint text and splits it into host and port.
pub fn parse_endpoint(text: &str) -> (r: Result<Endpoint, EndpointError>)
    ensures
        r is Ok <==> endpoint_spec(text.spec_bytes()) is Ok,
        r is Ok ==> r->Ok_0.host@ == endpoint_spec(text.spec_bytes())->Ok_0.0
            && r->Ok_0.port == endpoint_spec(text.spec_bytes())->Ok_0.1,
        r is Err ==> r->Err_0 == endpoint_spec(text.spec_bytes())->Err_0,
{
    let b = text.as_bytes();
    match port_start(b) {
        None => Err(EndpointError::MissingPort),
        Some(k) => match parse_port(b, k) {
            None => Err(EndpointError::BadPort),
            Some(port) => match parse_host(b, k - 1) {
                None => Err(EndpointError::BadHost),
                Some(host) => Ok(Endpoint { host, port }),
            },
        },
    }
}

} // verus!
