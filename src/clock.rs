use vstd::prelude::*;

use crate::text::{concat, decimal, decimal_string, digit_char};

verus! {

/// std's clock reading, carried opaquely.
#[verifier::external_type_specification]
#[verifier::external_body]
pub struct ExSystemTime(std::time::SystemTime);

/// std's error for a clock reading before the epoch, carried opaquely.
#[verifier::external_type_specification]
#[verifier::external_body]
pub struct ExSystemTimeError(std::time::SystemTimeError);

/// Relies on SystemTime::now: a reading of the system clock, of which
/// nothing is assumed.
pub assume_specification[ std::time::SystemTime::now ]() -> std::time::SystemTime;

/// Relies on Duration::as_millis: the whole milliseconds of a duration, of
/// which nothing is assumed.
pub assume_specification[ core::time::Duration::as_millis ](d: &core::time::Duration) -> u128;

/// Relies on SystemTime::duration_since with the Unix epoch: the time since
/// the epoch, or an error when the clock reads earlier.
#[verifier::external_body]
fn since_epoch(t: &std::time::SystemTime) -> (r: Result<
    core::time::Duration,
    std::time::SystemTimeError,
>) {
    t.duration_since(std::time::UNIX_EPOCH)
}

/// Milliseconds since the Unix epoch, or 0 when the clock reads earlier.
pub fn epoch_millis() -> (r: u128) {
    let now = std::time::SystemTime::now();
    match since_epoch(&now) {
        Ok(d) => d.as_millis(),
        Err(_) => 0,
    }
}

/// The identifier `<prefix>-<millis>-<seq>`.
pub open spec fn stamped(prefix: Seq<char>, millis: nat, seq: nat) -> Seq<char> {
    prefix + "-"@ + decimal(millis) + "-"@ + decimal(seq)
}

/// `id` is the identifier with `prefix` and sequence number `seq`, stamped
/// with some time.
pub open spec fn issued(id: Seq<char>, prefix: Seq<char>, seq: nat) -> bool {
    exists|millis: nat| id == #[trigger] stamped(prefix, millis, seq)
}

/// A source of fresh identifiers: each one it issues carries the next
/// sequence number.
pub struct RunIds {
    pub next: u64,
}

impl RunIds {
    pub fn new() -> (r: Self)
        ensures
            r.next == 0,
    {
        RunIds { next: 0 }
    }
}

/// The identifier `prefix` stamped with the time `millis` and the sequence
/// number `seq`.
pub fn run_id_at(prefix: &str, millis: u128, seq: u64) -> (r: String)
    ensures
        r@ == stamped(prefix@, millis as nat, seq as nat),
{
    let mut s = concat(prefix, "-");
    s.append(decimal_string(millis).as_str());
    s.append("-");
    s.append(decimal_string(seq as u128).as_str());
    s
}

/// A fresh identifier: `prefix` stamped with the current time and the next
/// sequence number of `ids`.
pub fn unique_run_id(ids: &mut RunIds, prefix: &str) -> (r: String)
    requires
        old(ids).next < u64::MAX,
    ensures
        final(ids).next == old(ids).next + 1,
        issued(r@, prefix@, old(ids).next as nat),
{
    let millis = epoch_millis();
    let r = run_id_at(prefix, millis, ids.next);
    ids.next = ids.next + 1;
    r
}

/// No decimal digit is a dash.
proof fn lemma_decimal_has_no_dash(n: nat)
    ensures
        decimal(n).len() >= 1,
        forall|i: int| 0 <= i < decimal(n).len() ==> decimal(n)[i] != '-',
    decreases n,
{
    if n >= 10 {
        lemma_decimal_has_no_dash(n / 10);
    }
}

/// Distinct digits are shown by distinct characters.
proof fn lemma_digit_char_injective(x: nat, y: nat)
    requires
        x < 10,
        y < 10,
        digit_char(x) == digit_char(y),
    ensures
        x == y,
{
}

/// Decimal notation names one number.
proof fn lemma_decimal_injective(a: nat, b: nat)
    requires
        decimal(a) == decimal(b),
    ensures
        a == b,
    decreases a,
{
    lemma_decimal_has_no_dash(a / 10);
    lemma_decimal_has_no_dash(b / 10);
    if a >= 10 && b >= 10 {
        assert(decimal(a).last() == digit_char(a % 10));
        assert(decimal(b).last() == digit_char(b % 10));
        assert(decimal(a).drop_last() == decimal(a / 10));
        assert(decimal(b).drop_last() == decimal(b / 10));
        lemma_decimal_injective(a / 10, b / 10);
        lemma_digit_char_injective(a % 10, b % 10);
        assert(a == 10 * (a / 10) + a % 10) by (nonlinear_arith);
        assert(b == 10 * (b / 10) + b % 10) by (nonlinear_arith);
    } else if a < 10 && b < 10 {
        assert(decimal(a)[0] == digit_char(a));
        assert(decimal(b)[0] == digit_char(b));
        lemma_digit_char_injective(a, b);
    } else if a >= 10 {
        assert(decimal(a).len() == decimal(a / 10).len() + 1);
    } else if b >= 10 {
        assert(decimal(b).len() == decimal(b / 10).len() + 1);
    }
}

/// Identifiers stamped with different sequence numbers differ, whatever the
/// time each was stamped with.
proof fn lemma_stamped_differ(
    prefix: Seq<char>,
    millis_a: nat,
    seq_a: nat,
    millis_b: nat,
    seq_b: nat,
)
    requires
        seq_a != seq_b,
    ensures
        stamped(prefix, millis_a, seq_a) != stamped(prefix, millis_b, seq_b),
{
    let x = decimal(millis_a);
    let y = decimal(millis_b);
    let sa = stamped(prefix, millis_a, seq_a);
    let sb = stamped(prefix, millis_b, seq_b);
    lemma_decimal_has_no_dash(millis_a);
    lemma_decimal_has_no_dash(millis_b);
    reveal_strlit("-");
    assert("-"@.len() == 1 && "-"@[0] == '-');
    let p: int = prefix.len() as int + 1;
    let xl: int = x.len() as int;
    let yl: int = y.len() as int;
    if sa == sb {
        if x.len() == y.len() {
            assert(x =~= sa.subrange(p, p + xl));
            assert(y =~= sb.subrange(p, p + yl));
            assert(decimal(seq_a) =~= sa.subrange(p + xl + 1, sa.len() as int));
            assert(decimal(seq_b) =~= sb.subrange(p + yl + 1, sb.len() as int));
            lemma_decimal_injective(seq_a, seq_b);
        } else if x.len() < y.len() {
            assert(sa[p + xl] == '-');
            assert(sb[p + xl] == y[xl]);
        } else {
            assert(sb[p + yl] == '-');
            assert(sa[p + yl] == x[yl]);
        }
    }
}

/// Two identifiers issued with the same prefix under different sequence
/// numbers differ: a source never issues the same identifier twice.
pub proof fn lemma_issued_ids_differ(a: Seq<char>, b: Seq<char>, prefix: Seq<char>, seq_a: nat, seq_b: nat)
    requires
        issued(a, prefix, seq_a),
        issued(b, prefix, seq_b),
        seq_a != seq_b,
    ensures
        a != b,
{
    let ma = choose|m: nat| a == #[trigger] stamped(prefix, m, seq_a);
    let mb = choose|m: nat| b == #[trigger] stamped(prefix, m, seq_b);
    lemma_stamped_differ(prefix, ma, seq_a, mb, seq_b);
}

} // verus!
