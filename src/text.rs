//! Identifiers and messages built from strings and decimal numbers.
use vstd::prelude::*;

verus! {

/// The ASCII digit for `d` (meaningful for `d < 10`).
pub open spec fn digit_char(d: nat) -> char {
    if d == 0 {
        '0'
    } else if d == 1 {
        '1'
    } else if d == 2 {
        '2'
    } else if d == 3 {
        '3'
    } else if d == 4 {
        '4'
    } else if d == 5 {
        '5'
    } else if d == 6 {
        '6'
    } else if d == 7 {
        '7'
    } else if d == 8 {
        '8'
    } else {
        '9'
    }
}

pub open spec fn is_digit(c: char) -> bool {
    '0' <= c && c <= '9'
}

/// The decimal representation of `n`, most significant digit first, without
/// sign or leading zeros.
pub open spec fn decimal(n: nat) -> Seq<char>
    decreases n,
{
    if n < 10 {
        seq![digit_char(n)]
    } else {
        decimal(n / 10).push(digit_char(n % 10))
    }
}

/// Relies on `ToString::to_string` for `u128`, that is its `Display` impl:
/// the plain decimal digits of the number.
#[verifier::external_body]
pub(crate) fn decimal_string(n: u128) -> (r: String)
    ensures
        r@ == decimal(n as nat),
{
    n.to_string()
}

/// Relies on `uuid::Uuid::new_v4` and the `Display` impl of `Uuid`: a random
/// identifier written in the 36-character hyphenated form.
#[verifier::external_body]
pub(crate) fn new_record_id() -> (r: String)
    ensures
        r@.len() == 36,
{
    uuid::Uuid::new_v4().to_string()
}

pub proof fn lemma_decimal_digits(n: nat)
    ensures
        decimal(n).len() >= 1,
        n >= 10 ==> decimal(n).len() >= 2,
        forall|i: int| 0 <= i < decimal(n).len() ==> is_digit(#[trigger] decimal(n)[i]),
    decreases n,
{
    if n >= 10 {
        lemma_decimal_digits(n / 10);
        assert forall|i: int| 0 <= i < decimal(n).len() implies is_digit(#[trigger] decimal(n)[i]) by {
            if i < decimal(n / 10).len() {
                assert(decimal(n)[i] == decimal(n / 10)[i]);
            }
        }
    }
}

/// Distinct numbers have distinct decimal representations.
pub proof fn lemma_decimal_injective(a: nat, b: nat)
    requires
        decimal(a) == decimal(b),
    ensures
        a == b,
    decreases a,
{
    lemma_decimal_digits(a);
    lemma_decimal_digits(b);
    if a >= 10 && b >= 10 {
        assert(decimal(a).drop_last() == decimal(a / 10));
        assert(decimal(b).drop_last() == decimal(b / 10));
        lemma_decimal_injective(a / 10, b / 10);
        assert(decimal(a).last() == digit_char(a % 10));
        assert(decimal(b).last() == digit_char(b % 10));
        assert(a % 10 == b % 10);
        assert(a == (a / 10) * 10 + a % 10);
        assert(b == (b / 10) * 10 + b % 10);
        assert(a == b);
    } else if a < 10 && b < 10 {
        assert(decimal(a)[0] == digit_char(a));
        assert(decimal(b)[0] == digit_char(b));
        assert(digit_char(a) == digit_char(b));
        assert(a == b);
    } else {
        assert(decimal(a).len() != decimal(b).len());
    }
}

/// The identifier minted for an agent registering with `hostname` at `now`
/// (seconds since the epoch).
pub open spec fn agent_id_of(hostname: Seq<char>, now: nat) -> Seq<char> {
    "agent-"@ + hostname + "-"@ + decimal(now)
}

/// The identifier of a command created at `nanos` (nanoseconds since the epoch).
pub open spec fn command_id_of(nanos: nat) -> Seq<char> {
    "cmd-"@ + decimal(nanos)
}

pub fn agent_id_for(hostname: &String, now: u64) -> (r: String)
    ensures
        r@ == agent_id_of(hostname@, now as nat),
{
    let digits = decimal_string(now as u128);
    String::from_str("agent-").concat(hostname.as_str()).concat("-").concat(digits.as_str())
}

pub fn command_id_for(nanos: u128) -> (r: String)
    ensures
        r@ == command_id_of(nanos as nat),
{
    let digits = decimal_string(nanos);
    String::from_str("cmd-").concat(digits.as_str())
}

/// Registrations that differ in hostname or in registration second are given
/// different agent identifiers.
pub proof fn lemma_agent_ids_distinct(h1: Seq<char>, t1: nat, h2: Seq<char>, t2: nat)
    requires
        h1 != h2 || t1 != t2,
    ensures
        agent_id_of(h1, t1) != agent_id_of(h2, t2),
{
    reveal_strlit("agent-");
    reveal_strlit("-");
    lemma_decimal_digits(t1);
    lemma_decimal_digits(t2);
    let x1 = agent_id_of(h1, t1);
    let x2 = agent_id_of(h2, t2);
    let d1 = decimal(t1);
    let d2 = decimal(t2);
    if x1 == x2 {
        let n = x1.len();
        assert(n == 7 + h1.len() + d1.len());
        assert(n == 7 + h2.len() + d2.len());
        if d1.len() == d2.len() {
            assert(d1 =~= x1.subrange(n - d1.len(), n as int));
            assert(d2 =~= x2.subrange(n - d2.len(), n as int));
            lemma_decimal_injective(t1, t2);
            assert(h1 =~= x1.subrange(6, 6 + h1.len() as int));
            assert(h2 =~= x2.subrange(6, 6 + h2.len() as int));
        } else if d1.len() < d2.len() {
            let k: int = 6 + h1.len() as int;
            assert(x1[k] == '-');
            assert(x2[k] == d2[k - 7 - h2.len()]);
        } else {
            let k: int = 6 + h2.len() as int;
            assert(x2[k] == '-');
            assert(x1[k] == d1[k - 7 - h1.len()]);
        }
    }
}

/// In any sequence of registrations whose (hostname, second) pairs are pairwise
/// different, the minted agent identifiers are pairwise different.
pub proof fn lemma_registration_ids_distinct(hosts: Seq<Seq<char>>, times: Seq<nat>)
    requires
        hosts.len() == times.len(),
        forall|i: int, j: int|
            0 <= i < hosts.len() && 0 <= j < hosts.len() && i != j ==> hosts[i] != hosts[j] || times[i] != times[j],
    ensures
        forall|i: int, j: int|
            0 <= i < hosts.len() && 0 <= j < hosts.len() && i != j ==> agent_id_of(hosts[i], times[i]) != agent_id_of(
                hosts[j],
                times[j],
            ),
{
    assert forall|i: int, j: int|
        0 <= i < hosts.len() && 0 <= j < hosts.len() && i != j implies agent_id_of(hosts[i], times[i]) != agent_id_of(
            hosts[j],
            times[j],
        ) by {
        lemma_agent_ids_distinct(hosts[i], times[i], hosts[j], times[j]);
    }
}

} // verus!
