use rand::SeedableRng;
use zalgo::RandOrStatic;
use zalgo::ZalgoBuilder;
use zalgo::is_zalgo_char;
use zalgo::zalgoify;

/// The above-category code points, as the tables fix them.
fn in_up_table(u: u32) -> bool {
    (0x300..=0x314).contains(&u)
        || u == 0x31A
        || (0x33D..=0x33F).contains(&u)
        || (0x342..=0x344).contains(&u)
        || u == 0x346
        || (0x34A..=0x34C).contains(&u)
        || (0x350..=0x352).contains(&u)
        || u == 0x357
        || u == 0x35B
        || (0x363..=0x36F).contains(&u)
}

/// The mixed-category code points, as the tables fix them.
fn in_mid_table(u: u32) -> bool {
    u == 0x315
        || u == 0x31B
        || (0x321..=0x322).contains(&u)
        || (0x327..=0x328).contains(&u)
        || (0x334..=0x338).contains(&u)
        || (0x340..=0x341).contains(&u)
        || u == 0x34F
        || u == 0x358
        || (0x35C..=0x362).contains(&u)
        || u == 0x489
}

/// The below-category code points, as the tables fix them.
fn in_down_table(u: u32) -> bool {
    (0x316..=0x319).contains(&u)
        || (0x31C..=0x320).contains(&u)
        || (0x323..=0x326).contains(&u)
        || (0x329..=0x333).contains(&u)
        || (0x339..=0x33C).contains(&u)
        || u == 0x345
        || (0x347..=0x349).contains(&u)
        || (0x34D..=0x34E).contains(&u)
        || (0x353..=0x356).contains(&u)
        || (0x359..=0x35A).contains(&u)
}

fn fixed_builder(up: usize, mid: usize, down: usize) -> ZalgoBuilder {
    let mut builder = ZalgoBuilder::new();
    builder.set_up(RandOrStatic::Static { value: up });
    builder.set_mid(RandOrStatic::Static { value: mid });
    builder.set_down(RandOrStatic::Static { value: down });
    builder
}

#[test]
fn empty_input_gives_empty_output() {
    assert_eq!(zalgoify(""), "");
    assert_eq!(fixed_builder(0, 0, 0).zalgoify(""), "");
    assert_eq!(fixed_builder(4, 2, 1).zalgoify(""), "");
    let mut random_builder = ZalgoBuilder::new();
    random_builder.set_up(RandOrStatic::Rand { start: 0, end: 100 });
    assert_eq!(random_builder.zalgoify(""), "");
}

#[test]
fn existing_marks_are_filtered_out() {
    // A pre-existing combining mark vanishes; everything else stays in order.
    assert_eq!(fixed_builder(0, 0, 0).zalgoify("a\u{0301}b"), "ab");
    // An input of marks alone has nothing to decorate, whatever the counts.
    assert_eq!(fixed_builder(3, 3, 3).zalgoify("\u{0301}\u{0489}"), "");
    assert_eq!(zalgoify("\u{0301}"), "");
}

#[test]
fn zero_count_transform_is_idempotent() {
    let builder = fixed_builder(0, 0, 0);
    let once = builder.zalgoify("He\u{0330}llo\u{0489} W\u{0301}orld!");
    let twice = builder.zalgoify(&once);
    assert_eq!(once, "Hello World!");
    assert_eq!(twice, once);
}

#[test]
fn fixed_counts_give_exact_blocks() {
    let input = "Hi!";
    let (up, mid, down) = (2usize, 3usize, 1usize);
    let out: Vec<char> = fixed_builder(up, mid, down).zalgoify(input).chars().collect();
    let k = 1 + up + mid + down;
    assert_eq!(out.len(), input.chars().count() * k);
    for (i, c) in input.chars().enumerate() {
        let block = &out[i * k..(i + 1) * k];
        assert_eq!(block[0], c);
        for j in 1..1 + up {
            assert!(in_up_table(block[j] as u32));
        }
        for j in 1 + up..1 + up + mid {
            assert!(in_mid_table(block[j] as u32));
        }
        for j in 1 + up + mid..k {
            assert!(in_down_table(block[j] as u32));
        }
    }
}

#[test]
fn up_only_marks_come_from_the_up_table() {
    let input = "Hello World!";
    let mut builder = ZalgoBuilder::new();
    builder.set_up(RandOrStatic::Rand { start: 0, end: 100 });
    builder.set_mid(RandOrStatic::Static { value: 0 });
    builder.set_down(RandOrStatic::Static { value: 0 });

    let out: Vec<char> = builder.zalgoify(input).chars().collect();
    let n = input.chars().count();
    assert!(!out.is_empty());
    assert_eq!(out.len() % n, 0);
    let k = out.len() / n;
    for (i, c) in input.chars().enumerate() {
        let block = &out[i * k..(i + 1) * k];
        assert_eq!(block[0], c);
        for j in 1..k {
            assert!(in_up_table(block[j] as u32));
        }
    }
}

#[test]
fn default_config_output_is_not_shorter() {
    let input = "Hello World!";
    let out = zalgoify(input);
    let n = input.chars().count();
    let out_n = out.chars().count();
    assert!(out_n >= n);
    assert_eq!(out_n % n, 0);
    // Every emitted character is either a base character or a table mark.
    for c in out.chars() {
        assert!(c.is_ascii() || is_zalgo_char(c));
    }
}

#[test]
fn resolve_static_needs_no_randomness() {
    let mut rng = rand::rngs::SmallRng::seed_from_u64(7);
    let quantity = RandOrStatic::Static { value: 5 };
    assert_eq!(quantity.generate_num(&mut rng), 5);
}

#[test]
fn resolve_empty_range_yields_zero() {
    let mut rng = rand::rngs::SmallRng::seed_from_u64(7);
    let quantity = RandOrStatic::Rand { start: 2, end: 2 };
    assert_eq!(quantity.generate_num(&mut rng), 0);
}

#[test]
fn resolve_range_stays_in_range() {
    let mut rng = rand::rngs::SmallRng::seed_from_u64(7);
    let single = RandOrStatic::Rand { start: 3, end: 4 };
    assert_eq!(single.generate_num(&mut rng), 3);
    let wide = RandOrStatic::Rand { start: 0, end: 8 };
    for _ in 0..100 {
        assert!(wide.generate_num(&mut rng) < 8);
    }
}

#[test]
fn inverted_range_is_refused() {
    let mut builder = ZalgoBuilder::new();
    assert!(builder.is_well_formed());
    builder.set_up(RandOrStatic::Rand { start: 5, end: 2 });
    assert!(!builder.is_well_formed());
    assert!(!RandOrStatic::Rand { start: 1, end: 0 }.is_well_formed());
    assert!(RandOrStatic::Rand { start: 2, end: 2 }.is_well_formed());
    assert!(RandOrStatic::Static { value: 9 }.is_well_formed());
}

#[test]
fn classifier_known_values() {
    assert!(is_zalgo_char('\u{0300}'));
    assert!(is_zalgo_char('\u{0315}'));
    assert!(is_zalgo_char('\u{0316}'));
    assert!(is_zalgo_char('\u{036F}'));
    assert!(is_zalgo_char('\u{0489}'));
    assert!(!is_zalgo_char('\u{02FF}'));
    assert!(!is_zalgo_char('\u{0370}'));
    assert!(!is_zalgo_char('\u{0488}'));
    assert!(!is_zalgo_char('\u{048A}'));
    assert!(!is_zalgo_char('a'));
    assert!(!is_zalgo_char(' '));
}

#[test]
fn from_conversions_build_the_expected_quantities() {
    assert_eq!(RandOrStatic::from(3..9), RandOrStatic::Rand { start: 3, end: 9 });
    assert_eq!(RandOrStatic::from((1usize, 4usize)), RandOrStatic::Rand { start: 1, end: 4 });
    assert_eq!(RandOrStatic::from(6usize), RandOrStatic::Static { value: 6 });
}
