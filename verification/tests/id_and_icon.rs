use resonant::icon::Icon;
use resonant::id::IdGenerator;

#[test]
fn generator_starts_at_zero() {
    let mut g = IdGenerator::new();
    assert_eq!(g.next_id().get(), 0);
    assert_eq!(g.next_id().get(), 1);
    assert_eq!(g.next_id().get(), 2);
}

#[test]
fn generator_starting_at_given_value() {
    let mut g = IdGenerator::starting_at(41);
    let a = g.next_id();
    let b = g.next_id();
    assert_eq!(a.get(), 41);
    assert_eq!(b.get(), 42);
    assert_ne!(a, b);
}

#[test]
fn generator_wraps_at_the_top() {
    let mut g = IdGenerator::starting_at(u64::MAX);
    assert_eq!(g.next_id().get(), u64::MAX);
    assert_eq!(g.next_id().get(), 0);
}

#[test]
fn default_generator_matches_new() {
    let mut g = IdGenerator::default();
    assert_eq!(g.next_id().get(), 0);
}

#[test]
fn icon_keeps_its_markup() {
    static SVG: &[u8] = b"<svg xmlns=\"http://www.w3.org/2000/svg\"/>";
    let icon = Icon::new(SVG);
    assert_eq!(icon.svg_data(), SVG);
    assert_eq!(icon.clone(), icon);
}

#[test]
fn id_dereferences_to_its_number() {
    let mut g = IdGenerator::starting_at(9);
    let id = g.next_id();
    assert_eq!(*id, 9);
    assert_eq!(*id, id.get());
}
