use staged_builder::holder::Holder;

#[test]
fn point_scenario() {
    let built = Holder::builder(2).set_field(0, 3i64).set_field(1, 4).complete();
    assert_eq!(built, vec![3, 4]);
    let other = Holder::builder(2).set_field(1, 4i64).set_field(0, 3).complete();
    assert_eq!(other, built);

    let h = Holder::consumer(vec![3i64, 4]);
    let (x, h) = h.consume_field(0);
    assert_eq!(x, 3);
    assert!(!h.is_complete());
    let (y, h) = h.consume_field(1);
    assert_eq!(y, 4);
    assert!(h.is_complete());
    h.consume();
}

#[test]
fn build_in_every_order() {
    let orders = [[0, 1, 2], [0, 2, 1], [1, 0, 2], [1, 2, 0], [2, 0, 1], [2, 1, 0]];
    for order in orders {
        let values = ["a".to_string(), "b".to_string(), "c".to_string()];
        let mut h = Holder::builder(3);
        for i in order {
            assert!(!h.flag(i));
            h = h.set_field(i, values[i].clone());
            assert!(h.flag(i));
        }
        assert!(h.is_complete());
        assert_eq!(h.complete(), values.to_vec());
    }
}

#[test]
fn consume_in_every_order() {
    let orders = [[0, 1, 2], [0, 2, 1], [1, 0, 2], [1, 2, 0], [2, 0, 1], [2, 1, 0]];
    for order in orders {
        let values = vec![10u8, 20, 30];
        let mut h = Holder::consumer(values.clone());
        let mut out = Vec::new();
        for i in order {
            let (v, next) = h.consume_field(i);
            out.push((i, v));
            h = next;
        }
        assert!(h.is_complete());
        h.consume();
        out.sort();
        assert_eq!(out, vec![(0, 10), (1, 20), (2, 30)]);
    }
}

#[test]
fn no_fields() {
    let h: Holder<u32> = Holder::builder(0);
    assert!(h.is_complete());
    assert_eq!(h.len(), 0);
    assert!(h.complete().is_empty());
    let c: Holder<u32> = Holder::consumer(vec![]);
    assert!(c.is_complete());
    c.consume();
}

#[test]
fn fresh_holders_are_not_complete() {
    let h: Holder<u32> = Holder::builder(2);
    assert!(!h.is_complete());
    let h = h.set_field(0, 1);
    assert!(!h.is_complete());
    assert!(!h.flag(1));
    let c = Holder::consumer(vec![1u32]);
    assert!(!c.is_complete());
    assert_eq!(c.len(), 1);
}
