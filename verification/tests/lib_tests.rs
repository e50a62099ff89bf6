use std::time::Instant;
use zalgo::RandOrStatic;
use zalgo::ZalgoBuilder;
use zalgo::is_zalgo_char;
use zalgo::is_zalgo_char_scan;
use zalgo::zalgoify;

#[test]
fn basic_zalgoify_works() {
    let ret = zalgoify("Hello World!");
    println!("{}", ret);
    assert!(!ret.is_empty());
}

#[test]
fn zalgoify_builder_works() {
    let mut zalgo_builder = ZalgoBuilder::new();
    zalgo_builder.set_up(RandOrStatic::from(0..100));
    zalgo_builder.set_down(RandOrStatic::from(0usize));
    zalgo_builder.set_mid(RandOrStatic::from(0usize));

    let ret = zalgo_builder.zalgoify("Hello World!");

    println!("{}", ret);
    assert!(!ret.is_empty());
}

#[test]
fn zalgo_noop_works() {
    let mut zalgo_builder = ZalgoBuilder::new();
    zalgo_builder.set_up(RandOrStatic::from(0usize));
    zalgo_builder.set_down(RandOrStatic::from(0usize));
    zalgo_builder.set_mid(RandOrStatic::from(0usize));

    let test = "Hello World!";
    assert_eq!(test, zalgo_builder.zalgoify("Hello World!"));
}

#[test]
fn zalgo_bench() {
    let data = "Hello World!".repeat(12);

    let start = Instant::now();
    zalgoify(&data);
    let elapsed = start.elapsed();
    println!("Time: {:?}", elapsed);
}

#[test]
fn test_is_zalgo_char() {
    for i in 0..=0x10FFFFu32 {
        if let Ok(c) = char::try_from(i) {
            let is_zalgo_char_scan_result = is_zalgo_char_scan(c);
            let is_zalgo_char_result = is_zalgo_char(c);
            assert!(
                is_zalgo_char_scan_result == is_zalgo_char_result,
                "failed on {:x?} ({:b}), expected {}, got {}",
                c,
                u32::from(c),
                is_zalgo_char_scan_result,
                is_zalgo_char_result,
            );
        }
    }
}
