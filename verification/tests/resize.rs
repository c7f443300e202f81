use nft_utils::{add_signed, reallocate, resize_steps, RentOracle, ResizeError, Resource, GROWTH_QUOTA};

fn oracle(base: u64, per_byte: u64) -> RentOracle {
    RentOracle { base, lamports_per_byte: per_byte }
}

#[test]
fn minimum_deposit_formula() {
    let rent = oracle(890_880, 6_960);
    assert_eq!(rent.minimum_deposit(0), 890_880);
    assert_eq!(rent.minimum_deposit(100), 890_880 + 696_000);
}

#[test]
fn add_signed_grows_and_shrinks() {
    assert_eq!(add_signed(10, 5), 15);
    assert_eq!(add_signed(10, -10), 0);
    assert_eq!(add_signed(0, 0), 0);
}

#[test]
fn grow_moves_exact_deposit_delta() {
    let rent = oracle(10, 2);
    let mut res = Resource { data: vec![1, 2, 3], lamports: 16 };
    let mut payer: u64 = 100;
    let r = reallocate(2, &mut res, &mut payer, &rent);
    assert!(r.is_ok());
    assert_eq!(res.data.len(), 5);
    assert_eq!(res.data, vec![1, 2, 3, 0, 0]);
    assert_eq!(res.lamports, 20);
    assert_eq!(payer, 96);
    // funded at exactly the minimum for the new length
    assert_eq!(res.lamports, rent.minimum_deposit(res.data.len()));
}

#[test]
fn shrink_refunds_exact_deposit_delta() {
    let rent = oracle(10, 2);
    let mut res = Resource { data: vec![9, 9, 9, 9, 9], lamports: 20 };
    let mut payer: u64 = 50;
    let r = reallocate(-4, &mut res, &mut payer, &rent);
    assert!(r.is_ok());
    assert_eq!(res.data, vec![9]);
    assert_eq!(res.lamports, 12);
    assert_eq!(payer, 58);
    assert_eq!(res.lamports, rent.minimum_deposit(res.data.len()));
}

#[test]
fn equal_deposit_skips_physical_resize() {
    // a zero-rate oracle maps every length to the same minimum deposit, so a
    // nonzero delta leaves the byte length untouched
    let rent = oracle(500, 0);
    let mut res = Resource { data: vec![7; 64], lamports: 500 };
    let mut payer: u64 = 1_000;
    let r = reallocate(100_000, &mut res, &mut payer, &rent);
    assert!(r.is_ok());
    assert_eq!(res.data.len(), 64);
    assert_eq!(res.lamports, 500);
    assert_eq!(payer, 1_000);
}

#[test]
fn large_grow_is_decomposed_into_quota_steps() {
    let steps = resize_steps(0, 25_000);
    assert_eq!(steps, vec![10_240, 20_480, 25_000]);
    let mut prev = 0usize;
    for s in &steps {
        assert!(s.abs_diff(prev) <= GROWTH_QUOTA);
        prev = *s;
    }
    assert_eq!(*steps.last().unwrap(), 25_000);
}

#[test]
fn large_shrink_is_decomposed_into_quota_steps() {
    let steps = resize_steps(25_000, 3_000);
    assert_eq!(steps, vec![14_760, 4_520, 3_000]);
}

#[test]
fn small_resize_is_a_single_step() {
    assert_eq!(resize_steps(100, 600), vec![600]);
    assert_eq!(resize_steps(600, 100), vec![100]);
    assert_eq!(resize_steps(42, 42), Vec::<usize>::new());
}

#[test]
fn large_grow_lands_exactly_and_preserves_content() {
    let rent = oracle(0, 1);
    let mut res = Resource { data: vec![5, 6, 7], lamports: 3 };
    let mut payer: u64 = 1_000_000;
    let r = reallocate(30_000, &mut res, &mut payer, &rent);
    assert!(r.is_ok());
    assert_eq!(res.data.len(), 30_003);
    assert_eq!(&res.data[..3], &[5, 6, 7]);
    assert!(res.data[3..].iter().all(|b| *b == 0));
    assert_eq!(res.lamports, 30_003);
    assert_eq!(payer, 1_000_000 - 30_000);
}

#[test]
fn grow_then_shrink_round_trips_length() {
    let rent = oracle(100, 3);
    let mut res = Resource { data: vec![1; 500], lamports: 1_600 };
    let mut payer: u64 = 100_000;
    assert!(reallocate(20_000, &mut res, &mut payer, &rent).is_ok());
    assert_eq!(res.data.len(), 20_500);
    let back = 500i64 - res.data.len() as i64;
    assert!(reallocate(back as isize, &mut res, &mut payer, &rent).is_ok());
    assert_eq!(res.data.len(), 500);
    assert_eq!(res.lamports, 1_600);
    assert_eq!(payer, 100_000);
}

#[test]
fn underfunded_payer_is_rejected_unchanged() {
    let rent = oracle(0, 10);
    let mut res = Resource { data: vec![1, 2], lamports: 20 };
    let mut payer: u64 = 5;
    let r = reallocate(10, &mut res, &mut payer, &rent);
    assert_eq!(r, Err(ResizeError::TransferRejected));
    assert_eq!(res.data, vec![1, 2]);
    assert_eq!(res.lamports, 20);
    assert_eq!(payer, 5);
}

#[test]
fn wrapping_refund_overflows_unchanged() {
    // the refund would wrap the payer's balance
    let rent = oracle(0, 10);
    let mut res = Resource { data: vec![0; 100], lamports: 1_000 };
    let mut payer: u64 = u64::MAX - 5;
    let r = reallocate(-50, &mut res, &mut payer, &rent);
    assert_eq!(r, Err(ResizeError::Overflow));
    assert_eq!(res.data.len(), 100);
    assert_eq!(res.lamports, 1_000);
    assert_eq!(payer, u64::MAX - 5);
}

#[test]
fn underfunded_resource_refund_overflows_unchanged() {
    // the resource cannot cover the refund it owes
    let rent = oracle(0, 10);
    let mut res = Resource { data: vec![0; 100], lamports: 30 };
    let mut payer: u64 = 0;
    let r = reallocate(-50, &mut res, &mut payer, &rent);
    assert_eq!(r, Err(ResizeError::Overflow));
    assert_eq!(res.lamports, 30);
    assert_eq!(payer, 0);
}

#[test]
fn quota_boundary_plans() {
    // exactly one quota is a single full step
    assert_eq!(resize_steps(100, 100 + GROWTH_QUOTA), vec![100 + GROWTH_QUOTA]);
    // one byte past the quota takes a second, clamped step
    assert_eq!(
        resize_steps(100, 101 + GROWTH_QUOTA),
        vec![100 + GROWTH_QUOTA, 101 + GROWTH_QUOTA]
    );
}

#[test]
fn add_signed_spans_the_signed_range() {
    assert_eq!(add_signed(usize::MAX, isize::MIN), usize::MAX - 1 - isize::MAX as usize);
    assert_eq!(add_signed(0, isize::MAX), isize::MAX as usize);
}
