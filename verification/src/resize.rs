use vstd::prelude::*;
use vstd::arithmetic::div_mod::{lemma_fundamental_div_mod, lemma_mod_bound};
use vstd::math::abs;
use crate::errors::ResizeError;

verus! {

/// Host-imposed bound on how many bytes a single physical resize call may
/// add or remove.
pub const GROWTH_QUOTA: usize = 10240;

/// The host's rent oracle: a resource of `len` bytes must keep a deposit of
/// `base + lamports_per_byte * len`. The host supplies the schedule; the
/// library only evaluates it.
#[derive(Clone, Copy, Debug, PartialEq, Eq, Structural)]
pub struct RentOracle {
    pub base: u64,
    pub lamports_per_byte: u64,
}

impl RentOracle {
    /// The minimum deposit a resource of `len` bytes must hold.
    pub open spec fn spec_minimum_deposit(self, len: int) -> int {
        self.base + self.lamports_per_byte * len
    }

    /// Computes the minimum deposit a resource of `len` bytes must hold.
    pub fn minimum_deposit(&self, len: usize) -> (r: u64)
        requires
            self.spec_minimum_deposit(len as int) <= u64::MAX,
        ensures
            r == self.spec_minimum_deposit(len as int),
    {
        proof {
            assert((self.lamports_per_byte as int) * (len as int)
                <= (u64::MAX as int) * (u64::MAX as int)) by (nonlinear_arith)
                requires
                    0 <= self.lamports_per_byte <= u64::MAX,
                    0 <= len <= u64::MAX,
            ;
        }
        let wide: u128 = self.base as u128 + (self.lamports_per_byte as u128) * (len as u128);
        wide as u64
    }
}

/// A host-managed resource: its byte content and its deposit balance. The
/// host also tracks an owning program; the resize engine never reads it.
pub struct Resource {
    pub data: Vec<u8>,
    pub lamports: u64,
}

/// The byte content of a resource after a content-preserving resize to
/// `new_len`: the common prefix is kept and bytes past the old end are zero.
pub open spec fn spec_resized(data: Seq<u8>, new_len: nat) -> Seq<u8> {
    if new_len <= data.len() {
        data.subrange(0, new_len as int)
    } else {
        data + Seq::new((new_len - data.len()) as nat, |i: int| 0u8)
    }
}

/// The length a resize request leaves behind. When the minimum deposit does
/// not change, the physical resize is skipped even for a nonzero
/// `length_delta` (the engine preserves this observed host-call-saving
/// behavior exactly); otherwise the resource takes the requested length.
pub open spec fn spec_next_len(rent: RentOracle, curr_len: nat, length_delta: int) -> int {
    if rent.spec_minimum_deposit(curr_len as int)
        == rent.spec_minimum_deposit(curr_len + length_delta) {
        curr_len as int
    } else {
        curr_len + length_delta
    }
}

/// How many bounded physical resize calls carry a resource of length `curr`
/// to length `new`.
pub open spec fn plan_len(curr: int, new: int) -> int {
    (abs(new - curr) + GROWTH_QUOTA - 1) as int / (GROWTH_QUOTA as int)
}

/// The target of the `i`-th physical resize call (counting from zero) on the
/// way from length `curr` to length `new`: a full quota step from the
/// previous target, clamped at `new`.
pub open spec fn plan_at(curr: int, new: int, i: int) -> int {
    if curr <= new {
        if curr + (i + 1) * (GROWTH_QUOTA as int) <= new {
            curr + (i + 1) * (GROWTH_QUOTA as int)
        } else {
            new
        }
    } else {
        if curr - (i + 1) * (GROWTH_QUOTA as int) >= new {
            curr - (i + 1) * (GROWTH_QUOTA as int)
        } else {
            new
        }
    }
}

/// Computes the successive target lengths of the physical resize calls that
/// carry a resource of length `curr_len` to length `new_len`, each within
/// the growth quota of its predecessor.
pub fn resize_steps(curr_len: usize, new_len: usize) -> (steps: Vec<usize>)
    ensures
        steps@.len() == plan_len(curr_len as int, new_len as int),
        forall|i: int| 0 <= i < steps@.len()
            ==> steps@[i] as int == plan_at(curr_len as int, new_len as int, i),
{
    let ghost c = curr_len as int;
    let ghost n = new_len as int;
    let mut steps: Vec<usize> = Vec::new();
    let mut cursor: usize = curr_len;
    if curr_len <= new_len {
        while cursor < new_len
            invariant
                curr_len <= cursor <= new_len,
                c == curr_len as int,
                n == new_len as int,
                forall|i: int| 0 <= i < steps@.len() ==> steps@[i] as int == plan_at(c, n, i),
                cursor as int == if steps@.len() == 0 { c } else {
                    plan_at(c, n, steps@.len() - 1)
                },
                cursor < new_len ==> cursor as int == c + steps@.len() * (GROWTH_QUOTA as int),
                steps@.len() > 0 ==> c + (steps@.len() - 1) * (GROWTH_QUOTA as int) < n,
            decreases new_len - cursor,
        {
            let next: usize = if new_len - cursor > GROWTH_QUOTA {
                cursor + GROWTH_QUOTA
            } else {
                new_len
            };
            steps.push(next);
            cursor = next;
        }
        proof {
            lemma_plan_len_grow(c, n, steps@.len() as int);
        }
    } else {
        while cursor > new_len
            invariant
                new_len <= cursor <= curr_len,
                c == curr_len as int,
                n == new_len as int,
                forall|i: int| 0 <= i < steps@.len() ==> steps@[i] as int == plan_at(c, n, i),
                cursor as int == if steps@.len() == 0 { c } else {
                    plan_at(c, n, steps@.len() - 1)
                },
                cursor > new_len ==> cursor as int == c - steps@.len() * (GROWTH_QUOTA as int),
                steps@.len() > 0 ==> c - (steps@.len() - 1) * (GROWTH_QUOTA as int) > n,
            decreases cursor - new_len,
        {
            let next: usize = if cursor - new_len > GROWTH_QUOTA {
                cursor - GROWTH_QUOTA
            } else {
                new_len
            };
            steps.push(next);
            cursor = next;
        }
        proof {
            lemma_plan_len_shrink(c, n, steps@.len() as int);
        }
    }
    steps
}

/// A count of full-quota-or-clamped steps that lands exactly on the target
/// is the ceiling of the distance over the quota.
proof fn lemma_plan_len_grow(c: int, n: int, k: int)
    requires
        c <= n,
        k >= 0,
        k == 0 ==> c == n,
        k > 0 ==> plan_at(c, n, k - 1) == n,
        k > 0 ==> c + (k - 1) * (GROWTH_QUOTA as int) < n,
    ensures
        k == plan_len(c, n),
{
    let q = GROWTH_QUOTA as int;
    let d = n - c;
    if k == 0 {
        assert(plan_len(c, n) == (q - 1) / q);
        lemma_fundamental_div_mod(q - 1, q);
        lemma_mod_bound(q - 1, q);
    } else {
        assert(d <= k * q);
        assert((k - 1) * q < d);
        lemma_ceil_div(d, q, k);
    }
}

proof fn lemma_plan_len_shrink(c: int, n: int, k: int)
    requires
        n <= c,
        k >= 0,
        k == 0 ==> c == n,
        k > 0 ==> plan_at(c, n, k - 1) == n,
        k > 0 ==> c - (k - 1) * (GROWTH_QUOTA as int) > n,
    ensures
        k == plan_len(c, n),
{
    let q = GROWTH_QUOTA as int;
    let d = c - n;
    if k == 0 {
        assert(plan_len(c, n) == (q - 1) / q);
        lemma_fundamental_div_mod(q - 1, q);
        lemma_mod_bound(q - 1, q);
    } else {
        assert(d <= k * q);
        assert((k - 1) * q < d);
        lemma_ceil_div(d, q, k);
    }
}

/// Adds a signed byte delta to a length. The caller answers for the sum
/// staying within the length domain; a violation is caller misuse, not a
/// recoverable outcome.
pub fn add_signed(a: usize, b: isize) -> (r: usize)
    requires
        0 <= a + b <= usize::MAX,
    ensures
        r == a + b,
{
    if b >= 0 {
        a + (b as usize)
    } else {
        let neg: i128 = -(b as i128);
        a - (neg as usize)
    }
}

/// Resizes the byte content in place: keeps the common prefix, drops bytes
/// past `new_len`, zero-fills growth.
fn apply_len(data: &mut Vec<u8>, new_len: usize)
    ensures
        final(data)@ == spec_resized(old(data)@, new_len as nat),
{
    if new_len <= data.len() {
        data.truncate(new_len);
        proof {
            assert(data@ =~= spec_resized(old(data)@, new_len as nat));
        }
    } else {
        while data.len() < new_len
            invariant
                old(data)@.len() <= data@.len() <= new_len,
                data@ == spec_resized(old(data)@, data@.len() as nat),
            decreases new_len - data@.len(),
        {
            data.push(0u8);
            proof {
                assert(data@ =~= spec_resized(old(data)@, data@.len() as nat));
            }
        }
    }
}

/// Composing two content-preserving resizes that move in one direction
/// equals the single resize to the final length.
proof fn lemma_resized_compose(data: Seq<u8>, mid: nat, last: nat)
    requires
        (data.len() <= mid && mid <= last) || (last <= mid && mid <= data.len()),
    ensures
        spec_resized(spec_resized(data, mid), last) == spec_resized(data, last),
{
    assert(spec_resized(spec_resized(data, mid), last) =~= spec_resized(data, last));
}

/// Grows or shrinks a resource by `len` bytes while keeping its deposit
/// balance matched to the host's minimum for its length.
///
/// The deposit delta is settled first: a positive delta is transferred from
/// the payer to the resource (the host rejects an underfunded or wrapping
/// transfer), a negative delta is refunded from the resource to the payer
/// (failing with `Overflow` when a balance would wrap), and a zero delta
/// returns at once with nothing changed — even for a nonzero `len`, the
/// physical resize is then skipped. Only then is the byte content resized,
/// content-preserving, through physical calls each within the growth quota.
/// On any failure nothing is changed: the host discards partial state with
/// the failed call.
pub fn reallocate(
    len: isize,
    resource: &mut Resource,
    payer_lamports: &mut u64,
    rent: &RentOracle,
) -> (r: Result<(), ResizeError>)
    requires
        0 <= old(resource).data@.len() + len <= usize::MAX,
        rent.spec_minimum_deposit(old(resource).data@.len() as int) <= u64::MAX,
        rent.spec_minimum_deposit(old(resource).data@.len() + len) <= u64::MAX,
    ensures
        ({
            let c = old(resource).data@.len() as int;
            let m0 = rent.spec_minimum_deposit(c);
            let m1 = rent.spec_minimum_deposit(c + len);
            let p = *old(payer_lamports) as int;
            let l = old(resource).lamports as int;
            &&& (m1 == m0 ==> r is Ok && final(resource).data@ == old(resource).data@
                && final(resource).lamports == old(resource).lamports
                && *final(payer_lamports) == *old(payer_lamports))
            &&& (m1 > m0 && (p < m1 - m0 || l + (m1 - m0) > u64::MAX) ==> r == Err::<
                (),
                ResizeError,
            >(ResizeError::TransferRejected))
            &&& (m1 > m0 && p >= m1 - m0 && l + (m1 - m0) <= u64::MAX ==> r is Ok
                && *final(payer_lamports) as int == p - (m1 - m0)
                && final(resource).lamports as int == l + (m1 - m0))
            &&& (m1 < m0 && (p + (m0 - m1) > u64::MAX || l < m0 - m1) ==> r == Err::<
                (),
                ResizeError,
            >(ResizeError::Overflow))
            &&& (m1 < m0 && p + (m0 - m1) <= u64::MAX && l >= m0 - m1 ==> r is Ok
                && *final(payer_lamports) as int == p + (m0 - m1)
                && final(resource).lamports as int == l - (m0 - m1))
            &&& (m1 != m0 && r is Ok ==> final(resource).data@ == spec_resized(
                old(resource).data@,
                (c + len) as nat,
            ))
            &&& (r is Ok ==> final(resource).data@.len() == spec_next_len(
                *rent,
                old(resource).data@.len(),
                len as int,
            ))
            &&& (r is Ok ==> final(resource).lamports as int == l + m1 - m0)
            &&& (r is Err ==> final(resource).data@ == old(resource).data@
                && final(resource).lamports == old(resource).lamports
                && *final(payer_lamports) == *old(payer_lamports))
        }),
{
    let curr_len: usize = resource.data.len();
    let new_len: usize = add_signed(curr_len, len);
    let curr_rent: u64 = rent.minimum_deposit(curr_len);
    let new_rent: u64 = rent.minimum_deposit(new_len);

    if new_rent > curr_rent {
        let diff: u64 = new_rent - curr_rent;
        if *payer_lamports < diff || resource.lamports > u64::MAX - diff {
            return Err(ResizeError::TransferRejected);
        }
        *payer_lamports = *payer_lamports - diff;
        resource.lamports = resource.lamports + diff;
    } else if new_rent < curr_rent {
        let diff: u64 = curr_rent - new_rent;
        if *payer_lamports > u64::MAX - diff || resource.lamports < diff {
            return Err(ResizeError::Overflow);
        }
        *payer_lamports = *payer_lamports + diff;
        resource.lamports = resource.lamports - diff;
    } else {
        return Ok(());
    }

    let ghost c = curr_len as int;
    let ghost n = new_len as int;
    let ghost lam_now = resource.lamports;
    let ghost data0 = resource.data@;
    let steps = resize_steps(curr_len, new_len);
    proof {
        assert(data0 =~= spec_resized(data0, curr_len as nat));
    }
    let mut i: usize = 0;
    while i < steps.len()
        invariant
            0 <= i <= steps@.len(),
            c == curr_len as int,
            n == new_len as int,
            0 <= c,
            0 <= n,
            c != n,
            steps@.len() == plan_len(c, n),
            forall|j: int| 0 <= j < steps@.len() ==> steps@[j] as int == plan_at(c, n, j),
            resource.lamports == lam_now,
            data0.len() == c,
            resource.data@ == spec_resized(
                data0,
                if i == 0 { curr_len as nat } else { plan_at(c, n, i - 1) as nat },
            ),
        decreases steps@.len() - i,
    {
        let ghost prev: int = if i == 0 { c } else { plan_at(c, n, i as int - 1) };
        let target: usize = steps[i];
        proof {
            if c <= n {
                assert(c <= prev <= plan_at(c, n, i as int) <= n);
            } else {
                assert(n <= plan_at(c, n, i as int) <= prev <= c);
            }
            lemma_resized_compose(data0, prev as nat, target as nat);
        }
        apply_len(&mut resource.data, target);
        i = i + 1;
    }
    proof {
        lemma_plan_last(c, n);
    }
    Ok(())
}

/// A nonempty plan ends exactly on the target length.
proof fn lemma_plan_last(c: int, n: int)
    requires
        0 <= c,
        0 <= n,
        c != n,
    ensures
        plan_len(c, n) >= 1,
        plan_at(c, n, plan_len(c, n) - 1) == n,
{
    let q = GROWTH_QUOTA as int;
    let d = abs(n - c) as int;
    let k = plan_len(c, n);
    lemma_fundamental_div_mod(d + q - 1, q);
    lemma_mod_bound(d + q - 1, q);
    assert(d + q - 1 == q * k + (d + q - 1) % q);
    assert(k * q >= d);
    assert(k >= 1) by (nonlinear_arith)
        requires
            q >= 1,
            d >= 1,
            k * q >= d,
            k * q <= d + q - 1,
    ;
}

/// `(d + q - 1) / q == k` whenever `(k - 1) * q < d <= k * q`.
proof fn lemma_ceil_div(d: int, q: int, k: int)
    requires
        q >= 1,
        k >= 1,
        (k - 1) * q < d,
        d <= k * q,
    ensures
        (d + q - 1) / q == k,
{
    let x = d + q - 1;
    lemma_fundamental_div_mod(x, q);
    lemma_mod_bound(x, q);
    let j = x / q;
    assert(x == q * j + x % q);
    assert(k * q <= x <= k * q + q - 1) by (nonlinear_arith)
        requires
            q >= 1,
            (k - 1) * q < d,
            d <= k * q,
            x == d + q - 1,
    ;
    assert(j == k) by (nonlinear_arith)
        requires
            q >= 1,
            x == q * j + x % q,
            0 <= x % q < q,
            k * q <= x <= k * q + q - 1,
    ;
}

/// After a successful resize the deposit moved is exactly the difference of
/// the minimum deposits, so a resource funded at or above the minimum for
/// its old length stays at or above the minimum for its new length, and one
/// funded at exactly the old minimum lands at exactly the new minimum.
pub proof fn lemma_resize_preserves_funding(
    rent: RentOracle,
    curr_len: int,
    new_len: int,
    balance_before: int,
    balance_after: int,
)
    requires
        balance_before >= rent.spec_minimum_deposit(curr_len),
        balance_after == balance_before + rent.spec_minimum_deposit(new_len)
            - rent.spec_minimum_deposit(curr_len),
    ensures
        balance_after >= rent.spec_minimum_deposit(new_len),
        balance_before == rent.spec_minimum_deposit(curr_len) ==> balance_after
            == rent.spec_minimum_deposit(new_len),
{
}

/// Every physical resize call of a step plan moves the length by at most the
/// growth quota, and a plan between distinct lengths is nonempty and ends
/// exactly at the requested length.
pub proof fn lemma_plan_bounded(curr: int, new: int)
    requires
        0 <= curr,
        0 <= new,
    ensures
        forall|i: int|
            0 <= i < plan_len(curr, new) ==> abs(
                #[trigger] plan_at(curr, new, i) - if i == 0 { curr } else { plan_at(curr, new, i - 1) },
            ) <= GROWTH_QUOTA as int,
        curr != new ==> plan_len(curr, new) >= 1 && plan_at(curr, new, plan_len(curr, new) - 1)
            == new,
        curr == new ==> plan_len(curr, new) == 0,
{
    let q = GROWTH_QUOTA as int;
    if curr == new {
        lemma_fundamental_div_mod(q - 1, q);
        lemma_mod_bound(q - 1, q);
    } else {
        lemma_plan_last(curr, new);
    }
    assert forall|i: int| 0 <= i < plan_len(curr, new) implies abs(
        #[trigger] plan_at(curr, new, i) - if i == 0 { curr } else { plan_at(curr, new, i - 1) },
    ) <= q by {
        let prev = if i == 0 { curr } else { plan_at(curr, new, i - 1) };
        if curr <= new {
            assert(curr <= prev <= plan_at(curr, new, i) <= new);
            assert(plan_at(curr, new, i) - prev <= q);
        } else {
            assert(new <= plan_at(curr, new, i) <= prev <= curr);
            assert(prev - plan_at(curr, new, i) <= q);
        }
    }
}

/// Growing a resource and then resizing it back to its original length
/// round-trips the length, whichever of the two resizes were physically
/// applied: a skipped grow makes the restoring request a zero delta, and an
/// applied grow makes the minimum deposits differ again on the way back.
/// Only the length is claimed; deposit balances are governed by the exact
/// delta clauses of `reallocate`.
pub proof fn lemma_length_round_trip(rent: RentOracle, curr_len: nat, length_delta: int)
    requires
        0 <= curr_len + length_delta,
    ensures
        ({
            let grown = spec_next_len(rent, curr_len, length_delta);
            spec_next_len(rent, grown as nat, curr_len - grown) == curr_len
        }),
{
}

} // verus!
