//! Deterministic names derived from a port: the instance directory name,
//! the bind address handed to the node process, and the client endpoint.
use vstd::prelude::*;
use vstd::string::*;

verus! {

/// The character that writes a single decimal digit.
pub open spec fn digit_char(d: nat) -> char {
    if d == 0 {
        '0'
    } else if d == 1 {
        '1'
    } else if d == 2 {
        '2'
    } else if d == 3 {
        '3'
    } else if d == 4 {
        '4'
    } else if d == 5 {
        '5'
    } else if d == 6 {
        '6'
    } else if d == 7 {
        '7'
    } else if d == 8 {
        '8'
    } else {
        '9'
    }
}

/// The decimal writing of `n`, most significant digit first, with no
/// leading zeros (`0` itself is written as one digit).
pub open spec fn dec_digits(n: nat) -> Seq<char>
    decreases n,
{
    if n < 10 {
        seq![digit_char(n)]
    } else {
        dec_digits(n / 10).push(digit_char(n % 10))
    }
}

pub proof fn lemma_dec_digits_nonempty(n: nat)
    ensures
        dec_digits(n).len() >= 1,
    decreases n,
{
    if n >= 10 {
        lemma_dec_digits_nonempty(n / 10);
    }
}

proof fn lemma_digit_char_injective(d1: nat, d2: nat)
    requires
        d1 < 10,
        d2 < 10,
        digit_char(d1) == digit_char(d2),
    ensures
        d1 == d2,
{
}

/// Distinct numbers have distinct decimal writings.
pub proof fn lemma_dec_digits_injective(a: nat, b: nat)
    requires
        dec_digits(a) == dec_digits(b),
    ensures
        a == b,
    decreases a + b,
{
    if a < 10 && b < 10 {
        assert(dec_digits(a)[0] == digit_char(a));
        assert(dec_digits(b)[0] == digit_char(b));
        lemma_digit_char_injective(a, b);
    } else if a < 10 {
        lemma_dec_digits_nonempty(b / 10);
        assert(dec_digits(b).len() >= 2);
    } else if b < 10 {
        lemma_dec_digits_nonempty(a / 10);
        assert(dec_digits(a).len() >= 2);
    } else {
        assert(dec_digits(a).last() == digit_char(a % 10));
        assert(dec_digits(b).last() == digit_char(b % 10));
        lemma_digit_char_injective(a % 10, b % 10);
        assert(dec_digits(a).drop_last() =~= dec_digits(a / 10));
        assert(dec_digits(b).drop_last() =~= dec_digits(b / 10));
        assert(a / 10 + b / 10 < a + b) by (nonlinear_arith)
            requires
                a >= 10,
                b >= 10,
        ;
        lemma_dec_digits_injective(a / 10, b / 10);
        assert(a == 10 * (a / 10) + a % 10) by (nonlinear_arith);
        assert(b == 10 * (b / 10) + b % 10) by (nonlinear_arith);
    }
}

/// The one-character string for a single decimal digit.
fn digit_str(d: u16) -> (r: &'static str)
    requires
        d < 10,
    ensures
        r@.len() == 1,
        r@[0] == digit_char(d as nat),
{
    proof {
        reveal_strlit("0");
        reveal_strlit("1");
        reveal_strlit("2");
        reveal_strlit("3");
        reveal_strlit("4");
        reveal_strlit("5");
        reveal_strlit("6");
        reveal_strlit("7");
        reveal_strlit("8");
        reveal_strlit("9");
    }
    if d == 0 {
        "0"
    } else if d == 1 {
        "1"
    } else if d == 2 {
        "2"
    } else if d == 3 {
        "3"
    } else if d == 4 {
        "4"
    } else if d == 5 {
        "5"
    } else if d == 6 {
        "6"
    } else if d == 7 {
        "7"
    } else if d == 8 {
        "8"
    } else {
        "9"
    }
}

/// Writes `n` in decimal.
pub fn dec_str(n: u16) -> (r: String)
    ensures
        r@ == dec_digits(n as nat),
    decreases n,
{
    if n < 10 {
        let r = String::from_str(digit_str(n));
        proof {
            assert(r@ =~= dec_digits(n as nat));
        }
        r
    } else {
        let prefix = dec_str(n / 10);
        let r = prefix.concat(digit_str(n % 10));
        proof {
            assert(r@ =~= dec_digits(n as nat));
        }
        r
    }
}

/// The name of the instance directory owned by the instance on `port`.
pub open spec fn home_dir_chars(port: u16) -> Seq<char> {
    "sandbox-"@ + dec_digits(port as nat)
}

/// The bind address handed to the run subprocess for `port`.
pub open spec fn local_rpc_addr_chars(port: u16) -> Seq<char> {
    "0.0.0.0:"@ + dec_digits(port as nat)
}

/// The client-facing endpoint of the instance on `port`.
pub open spec fn endpoint_chars(port: u16) -> Seq<char> {
    "http://localhost:"@ + dec_digits(port as nat)
}

/// The bind address (`0.0.0.0:<port>`) for the run subprocess.
pub fn local_rpc_addr(port: u16) -> (r: String)
    ensures
        r@ == local_rpc_addr_chars(port),
{
    let r = String::from_str("0.0.0.0:").concat(dec_str(port).as_str());
    proof {
        assert(r@ =~= local_rpc_addr_chars(port));
    }
    r
}

/// The client-facing endpoint (`http://localhost:<port>`).
pub fn endpoint(port: u16) -> (r: String)
    ensures
        r@ == endpoint_chars(port),
{
    let r = String::from_str("http://localhost:").concat(dec_str(port).as_str());
    proof {
        assert(r@ =~= endpoint_chars(port));
    }
    r
}

/// Per-instance filesystem isolation: each port owns one deterministically
/// named directory under the system's temporary root, so instances on
/// distinct ports never share on-disk state. Resolving the name is pure;
/// wiping and recreating the directory is the caller's filesystem work.
pub struct InstanceDirectory;

impl InstanceDirectory {
    /// The directory name (`sandbox-<port>`) owned by the instance on
    /// `port`: a pure, deterministic function of the port.
    pub fn resolve(port: u16) -> (r: String)
        ensures
            r@ == home_dir_chars(port),
    {
        let r = String::from_str("sandbox-").concat(dec_str(port).as_str());
        proof {
            assert(r@ =~= home_dir_chars(port));
        }
        r
    }
}

/// Distinct ports resolve to distinct instance directory names.
pub proof fn lemma_resolve_injective(p1: u16, p2: u16)
    requires
        p1 != p2,
    ensures
        home_dir_chars(p1) != home_dir_chars(p2),
{
    if home_dir_chars(p1) == home_dir_chars(p2) {
        let pre = "sandbox-"@;
        assert(home_dir_chars(p1).subrange(
            pre.len() as int,
            home_dir_chars(p1).len() as int,
        ) =~= dec_digits(p1 as nat));
        assert(home_dir_chars(p2).subrange(
            pre.len() as int,
            home_dir_chars(p2).len() as int,
        ) =~= dec_digits(p2 as nat));
        lemma_dec_digits_injective(p1 as nat, p2 as nat);
    }
}

} // verus!
