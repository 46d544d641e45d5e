use rapidl::helper::{
    coin_flip, gen_range_i32, gen_range_i32_except, gen_range_i32_except_within_range,
    get_long_object_name, get_particle_object_name, random_index,
};
use rapidl::oncelabel::OnceLabel;

#[test]
fn draws_lie_in_their_range() {
    let mut seen = [false; 6];
    for _ in 0..2_000 {
        let r = gen_range_i32(0, 6);
        assert!((0..6).contains(&r));
        seen[r as usize] = true;
        assert_eq!(gen_range_i32(-3, -2), -3);
        assert!(random_index(4) < 4);
    }
    assert!(seen.iter().all(|s| *s));
}

#[test]
fn excepted_value_never_comes() {
    let mut seen = [false; 6];
    for _ in 0..2_000 {
        let r = gen_range_i32_except(0, 6, 4);
        assert!((0..6).contains(&r) && r != 4);
        seen[r as usize] = true;
        assert_eq!(gen_range_i32_except(0, 2, 0), 1);
        assert_eq!(gen_range_i32_except(0, 2, 1), 0);
        let outside = gen_range_i32_except(-10, 10, 50);
        assert!((-10..10).contains(&outside));
    }
    assert_eq!(seen, [true, true, true, true, false, true]);
}

#[test]
fn excepted_range_never_comes() {
    let mut seen = [false; 10];
    for _ in 0..4_000 {
        let r = gen_range_i32_except_within_range(0, 10, 3, 6);
        assert!((0..10).contains(&r) && (r < 3 || r > 6));
        seen[r as usize] = true;
        let low = gen_range_i32_except_within_range(0, 10, 5, 20);
        assert!((0..5).contains(&low));
        let high = gen_range_i32_except_within_range(0, 10, -5, 7);
        assert!((8..10).contains(&high));
        let all = gen_range_i32_except_within_range(0, 10, 20, 30);
        assert!((0..10).contains(&all));
    }
    assert_eq!(seen, [true, true, true, false, false, false, false, true, true, true]);
}

#[test]
fn both_sides_of_a_coin_come_up() {
    let mut heads = 0;
    for _ in 0..400 {
        if coin_flip() {
            heads += 1;
        }
    }
    assert!(heads > 100 && heads < 300);
}

#[test]
fn names_of_things() {
    let particles =
        ["ball", "rock", "car", "volleyball", "truck", "boat", "plane", "rocket", "ship", "mass"];
    let long = ["beam", "ladder", "pole", "metal pole", "steel beam", "stick"];
    for _ in 0..200 {
        let (article, name) = get_particle_object_name();
        assert_eq!(article, "A");
        assert!(particles.contains(&name));
        let (article, name) = get_long_object_name();
        assert_eq!(article, "A");
        assert!(long.contains(&name));
    }
}

#[test]
fn labels_are_handed_out_once() {
    let mut labels = OnceLabel::new();
    let mut seen: Vec<&'static str> = Vec::new();
    for _ in 0..25 {
        let (bold, plain) = labels.next_label_raw();
        assert_eq!(bold, format!(r#"\mathbf{{{plain}}}"#));
        assert!(!seen.contains(&plain));
        seen.push(plain);
    }
    let mut symbols: Vec<&'static str> = Vec::new();
    for _ in 0..10 {
        let symbol = labels.next_symbol_raw();
        assert!(symbol.starts_with('\\'));
        assert!(!symbols.contains(&symbol));
        symbols.push(symbol);
    }
}
