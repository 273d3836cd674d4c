use profuzz::mutator::apply_arithmetic;
use profuzz::mutator::apply_bit_flip;
use profuzz::mutator::apply_flip;
use profuzz::mutator::select_operation;
use profuzz::mutator::Mutator;
use profuzz::mutator::MutatorOperation;
use profuzz::traits::Corpus;
use profuzz::traits::Mutable;

#[derive(Clone, Debug, PartialEq)]
struct Bytes {
    buf: Vec<u8>,
}

impl Corpus for Bytes {
    type Value = ();

    fn from_bytes(buf: Vec<u8>) -> Option<Self> {
        if buf.is_empty() {
            None
        } else {
            Some(Bytes { buf })
        }
    }

    fn to_bytes(self) -> Vec<u8> {
        self.buf
    }

    fn build(self) -> Vec<u8> {
        self.buf
    }

    fn show(&self) -> String {
        format!("{:?}", self.buf)
    }

    fn duplicate(&self) -> Self {
        self.clone()
    }
}

impl Mutable for Bytes {
    fn mutate(&mut self, mutator: &mut Mutator) {
        let at = mutator.gen_range(0, self.buf.len());
        mutator.mutate(&mut self.buf[at]);
    }
}

#[test]
fn same_seed_gives_same_mutations() {
    let mut first = Mutator::new([0u8; 32]);
    let mut second = Mutator::new([0u8; 32]);
    let mut a = Bytes { buf: vec![0, 1, 2, 3, 4, 5, 6, 7] };
    let mut b = a.clone();
    for _ in 0..1000 {
        a.mutate(&mut first);
        b.mutate(&mut second);
        assert_eq!(a, b);
    }
    assert_ne!(a.buf, vec![0, 1, 2, 3, 4, 5, 6, 7]);
}

#[test]
fn other_seed_gives_other_mutations() {
    let mut first = Mutator::new([0u8; 32]);
    let mut second = Mutator::new([1u8; 32]);
    let mut a: Vec<u64> = Vec::new();
    let mut b: Vec<u64> = Vec::new();
    let mut x: u64 = 0;
    let mut y: u64 = 0;
    for _ in 0..64 {
        first.mutate(&mut x);
        second.mutate(&mut y);
        a.push(x);
        b.push(y);
    }
    assert_ne!(a, b);
}

#[test]
fn operations_are_chosen_uniformly() {
    let mut mutator = Mutator::new([0u8; 32]);
    let mut counts = [0u64; 3];
    let calls: u64 = 1_000_000;
    for _ in 0..calls {
        match select_operation(mutator.gen_range(0, 3)) {
            MutatorOperation::BitFlip => counts[0] += 1,
            MutatorOperation::Flip => counts[1] += 1,
            MutatorOperation::Arithmetic => counts[2] += 1,
        }
    }
    assert_eq!(counts[0] + counts[1] + counts[2], calls);
    let expected = calls as f64 / 3.0;
    let mut chi2 = 0.0f64;
    for count in counts {
        let diff = count as f64 - expected;
        chi2 += diff * diff / expected;
    }
    // two degrees of freedom: 13.82 is the 0.1 % point
    assert!(chi2 < 13.82, "chi2 = {chi2}, counts = {counts:?}");
}

#[test]
fn select_operation_maps_draws() {
    assert_eq!(select_operation(0), MutatorOperation::BitFlip);
    assert_eq!(select_operation(1), MutatorOperation::Flip);
    assert_eq!(select_operation(2), MutatorOperation::Arithmetic);
}

#[test]
fn bit_flip_flips_one_bit() {
    assert_eq!(apply_bit_flip(0, 8, false, 0), 1);
    assert_eq!(apply_bit_flip(0, 8, false, 7), 0x80);
    assert_eq!(apply_bit_flip(0xff, 8, false, 3), 0xf7);
    assert_eq!(apply_bit_flip(0, 64, false, 63), 0x8000_0000_0000_0000);
    // the sign bit of a signed number stays
    assert_eq!(apply_bit_flip(0, 8, true, 7), 0);
    assert_eq!(apply_bit_flip(0, 8, true, 6), 0x40);
}

#[test]
fn flip_of_all_positions_inverts() {
    let idxs: Vec<u8> = vec![3, 1, 7, 0, 2, 6, 5, 4];
    assert_eq!(apply_flip(0b1010_0101, 8, false, &idxs), 0b0101_1010);
    assert_eq!(apply_flip(0, 8, false, &Vec::new()), 0);
}

#[test]
fn arithmetic_wraps_at_the_width() {
    assert_eq!(apply_arithmetic(250, 8, 16, true), 10);
    assert_eq!(apply_arithmetic(3, 8, 5, false), 254);
    assert_eq!(apply_arithmetic(0xffff, 16, 1, true), 0);
    assert_eq!(apply_arithmetic(0, 32, 1, false), 0xffff_ffff);
    assert_eq!(apply_arithmetic(u64::MAX, 64, 2, true), 1);
    assert_eq!(apply_arithmetic(7, 64, 3, true), 10);
}

#[test]
fn chance_bounds() {
    let mut mutator = Mutator::new([0u8; 32]);
    for _ in 0..100 {
        assert!(!mutator.gen_chance(0, 10));
        assert!(mutator.gen_chance(10, 10));
        assert!(mutator.gen_chance(11, 10));
        assert!(mutator.gen_chance(1, 0));
    }
    let mut hits = 0;
    for _ in 0..10_000 {
        if mutator.gen_chance(1, 2) {
            hits += 1;
        }
    }
    assert!(hits > 4_500 && hits < 5_500, "hits = {hits}");
}

#[test]
fn range_stays_in_range() {
    let mut mutator = Mutator::new([7u8; 32]);
    let mut seen = [false; 5];
    for _ in 0..1000 {
        let value = mutator.gen_range(10, 15);
        assert!((10..15).contains(&value));
        seen[value - 10] = true;
    }
    assert_eq!(seen, [true; 5]);
}

#[test]
fn sticky_index_sticks() {
    let mut mutator = Mutator::new([0u8; 32]);
    let mut changes = 0;
    let mut last = mutator.gen_index("constraints", 1000);
    assert!(last < 1000);
    for _ in 0..10_000 {
        let index = mutator.gen_index("constraints", 1000);
        assert!(index < 1000);
        if index != last {
            changes += 1;
        }
        last = index;
    }
    // the index changes with a chance of about 0.4
    assert!(changes > 3_500 && changes < 4_500, "changes = {changes}");
    // a remembered index that does not lie below the new bound is drawn again
    for _ in 0..100 {
        assert!(mutator.gen_index("constraints", 3) < 3);
    }
    // another key has an index of its own
    assert!(mutator.gen_index("other", 1) == 0);
}

#[test]
fn mutation_of_a_byte_is_one_of_the_operations() {
    let mut mutator = Mutator::new([0u8; 32]);
    let start: u8 = 0b0101_0011;
    let mut flips = 0;
    let mut bit_flips = 0;
    let mut arithmetic = 0;
    let mut dangerous = 0;
    let calls = 30_000;
    for _ in 0..calls {
        let mut number = start;
        mutator.mutate(&mut number);
        let difference = number ^ start;
        if number == !start {
            flips += 1;
        } else if difference.count_ones() == 1 {
            bit_flips += 1;
        } else if (1..=16).contains(&number.wrapping_sub(start))
            || (1..=16).contains(&start.wrapping_sub(number))
        {
            arithmetic += 1;
        } else {
            assert!([0x00, 0xff, 0x7f, 0x80].contains(&number), "number = {number:#x}");
            dangerous += 1;
        }
    }
    // a flip inverts all bits; the operations are as likely as each other,
    // but some of the sums differ from the start in a single bit
    assert!(flips > 9_500 && flips < 10_500, "flips = {flips}");
    assert!(bit_flips > 9_500, "bit flips = {bit_flips}");
    assert!(arithmetic > 6_000 && arithmetic < 10_500, "arithmetic = {arithmetic}");
    // a dangerous number with a chance of 1 in 1000
    assert!(dangerous > 5 && dangerous < 80, "dangerous = {dangerous}");
    assert_eq!(flips + bit_flips + arithmetic + dangerous, calls);
}

#[test]
fn flip_of_a_signed_number_keeps_the_sign_bit() {
    let mut mutator = Mutator::new([4u8; 32]);
    let mut flips = 0;
    for _ in 0..3_000 {
        let mut number: i8 = 0;
        mutator.mutate(&mut number);
        if number == 0x7f {
            flips += 1;
        }
        // the sign bit is set by a dangerous number or by a subtraction alone
        if number < 0 {
            assert!(number >= -16 || number == -1 || number == i8::MIN, "number = {number}");
        }
    }
    assert!(flips > 900 && flips < 1_150, "flips = {flips}");
}

#[test]
fn flip_draws_a_shuffle_and_arithmetic_goes_both_ways() {
    let mut mutator = Mutator::new([6u8; 32]);
    let start: u64 = 0x0123_4567_89ab_cdef;
    let table: Vec<u64> = (0..profuzz::dangerous_numbers::dangerous_numbers_len(64))
        .map(|i| profuzz::dangerous_numbers::dangerous_number_at_index(64, i))
        .collect();
    let mut flips = 0;
    let mut bit_flips = 0;
    let mut ups = 0;
    let mut downs = 0;
    for _ in 0..3_000 {
        let before = mutator.word_pos();
        let mut number = start;
        mutator.mutate(&mut number);
        // the chance takes two words of the key stream
        match mutator.word_pos() - before {
            // and the place in the table one
            3 => assert!(table.contains(&number), "number = {number:#x}"),
            // the choice of the operation one, and the place of the bit one
            4 => {
                assert_eq!((number ^ start).count_ones(), 1);
                bit_flips += 1;
            }
            // the choice of the operation one, the amount two, the coin one
            6 => {
                if (1..=16).contains(&number.wrapping_sub(start)) {
                    ups += 1;
                } else {
                    assert!((1..=16).contains(&start.wrapping_sub(number)));
                    downs += 1;
                }
            }
            // the shuffle draws more
            drawn => {
                assert!(drawn > 6, "drawn = {drawn}");
                assert_eq!(number, !start);
                flips += 1;
            }
        }
    }
    assert!(flips > 900 && flips < 1_100, "flips = {flips}");
    assert!(bit_flips > 900 && bit_flips < 1_100, "bit flips = {bit_flips}");
    assert!(ups > 400 && downs > 400, "ups = {ups}, downs = {downs}");
}

#[test]
fn mutation_of_a_short_is_one_of_the_operations() {
    let mut mutator = Mutator::new([3u8; 32]);
    let table: Vec<u64> = (0..profuzz::dangerous_numbers::dangerous_numbers_len(16))
        .map(|i| profuzz::dangerous_numbers::dangerous_number_at_index(16, i))
        .collect();
    let mut dangerous = 0;
    for round in 0..40_000u32 {
        let before = (round.wrapping_mul(2_654_435_761) >> 16) as u16;
        let after = mutator.mutated_u16(before);
        let bit_flip = (before ^ after).count_ones() == 1;
        let flip = after == !before;
        let arithmetic = (1..=16).contains(&after.wrapping_sub(before))
            || (1..=16).contains(&before.wrapping_sub(after));
        if !(bit_flip || flip || arithmetic) {
            assert!(table.contains(&u64::from(after)), "{before:#x} -> {after:#x}");
            dangerous += 1;
        }
        let byte = (before >> 8) as u8;
        let mutated = mutator.mutated_u8(byte);
        let bit_flip = (byte ^ mutated).count_ones() == 1;
        let flip = mutated == !byte;
        let arithmetic = (1..=16).contains(&mutated.wrapping_sub(byte))
            || (1..=16).contains(&byte.wrapping_sub(mutated));
        assert!(
            bit_flip || flip || arithmetic || [0x00, 0xff, 0x7f, 0x80].contains(&mutated),
            "{byte:#x} -> {mutated:#x}"
        );
    }
    assert!(dangerous > 5 && dangerous < 100, "dangerous = {dangerous}");
}
