use uciengine::buffer::FixedBuffer;
use uciengine::buffer::PvBuff;
use uciengine::buffer::UciBuff;

#[test]
fn set_trim() {
    let mut x = FixedBuffer::<10>::new();
    x.set("e2e4");

    assert_eq!(x.len, 4);

    assert_eq!(x.text(), "e2e4".to_string());

    x.set_trim("e2e4 e7e5 g1f3 b8c6", ' ');

    assert_eq!(x.len, 9);

    assert_eq!(x.text(), "e2e4 e7e5".to_string());
}

#[test]
fn set_within_capacity_reads_back_exactly() {
    let mut b = UciBuff::new();
    b.set("e7e8q");
    assert_eq!(b.len, 5);
    assert_eq!(b.to_opt(), Some("e7e8q".to_string()));

    let mut p = PvBuff::new();
    p.set("e2e4 e7e5");
    assert_eq!(p.to_opt(), Some("e2e4 e7e5".to_string()));
}

#[test]
fn set_over_capacity_keeps_first_bytes() {
    let mut b = UciBuff::new();
    b.set("e2e4 e7e5");
    assert_eq!(b.len, 5);
    assert_eq!(b.text(), "e2e4 ");
}

#[test]
fn set_trim_is_idempotent() {
    let mut a = FixedBuffer::<9>::new();
    a.set_trim("e2e4 e7e5 g1f3 b8c6", ' ');
    let once = a.text();
    let mut b = FixedBuffer::<9>::new();
    b.set_trim(once.as_str(), ' ');
    assert_eq!(b.text(), once);

    let mut c = FixedBuffer::<7>::new();
    c.set_trim("abcdefghij", ' ');
    let once = c.text();
    let mut d = FixedBuffer::<7>::new();
    d.set_trim(once.as_str(), ' ');
    assert_eq!(d.text(), once);
}

#[test]
fn set_trim_capacity_nine_drops_partial_move() {
    let mut b = FixedBuffer::<9>::new();
    b.set_trim("e2e4 e7e5 g1f3 b8c6", ' ');
    assert_eq!(b.len, 9);
    assert_eq!(b.text(), "e2e4 e7e5");
}

#[test]
fn set_trim_keeps_whole_string_that_fits() {
    let mut b = FixedBuffer::<25>::new();
    b.set_trim("e2e4 e7e5 g1f3 b8c6", ' ');
    assert_eq!(b.text(), "e2e4 e7e5 g1f3 b8c6");
}

#[test]
fn set_trim_without_early_boundary_leaves_empty() {
    let mut b = FixedBuffer::<3>::new();
    b.set_trim("abcdefgh", ' ');
    assert_eq!(b.len, 0);
    assert_eq!(b.to_opt(), None);
}

#[test]
fn reset_empties_the_buffer() {
    let mut b = UciBuff::new();
    b.set("e2e4");
    b.reset();
    assert_eq!(b.len, 0);
    assert_eq!(b.to_opt(), None);
}
