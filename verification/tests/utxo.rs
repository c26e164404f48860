use btc_primitives::{consume_utxo, move_txid, Outpoint, UTXOfunc, UTXO};

fn sample() -> UTXO {
    UTXO {
        txid: vec![0xde, 0xad, 0xbe, 0xef],
        vout: 1,
        value: 50_000,
    }
}

#[test]
fn consume_utxo_returns_an_equal_output() {
    assert_eq!(consume_utxo(sample()), sample());
    let empty = UTXO {
        txid: vec![],
        vout: 0,
        value: 0,
    };
    assert_eq!(consume_utxo(empty.clone()), empty);
    let large = UTXO {
        txid: vec![0xff; 32],
        vout: u32::MAX,
        value: u64::MAX,
    };
    assert_eq!(consume_utxo(large.clone()), large);
}

#[test]
fn depense_returns_an_equal_output_and_leaves_the_first() {
    let utxo = sample();
    let spent = utxo.depense();
    assert_eq!(spent, utxo);
    assert_eq!(utxo, sample());
}

#[test]
fn spent_output_is_independent_of_the_first() {
    let utxo = sample();
    let mut spent = utxo.depense();
    spent.txid[0] = 0x00;
    spent.vout = 7;
    spent.value = 1;
    assert_eq!(utxo, sample());
    assert_ne!(spent, utxo);
}

#[test]
fn outputs_are_equal_when_all_fields_are() {
    let utxo = sample();
    assert_ne!(UTXO { vout: 2, ..sample() }, utxo);
    assert_ne!(UTXO { value: 1, ..sample() }, utxo);
    assert_ne!(UTXO { txid: vec![0xde], ..sample() }, utxo);
    assert_eq!(UTXO { ..sample() }, utxo);
}

#[test]
fn move_txid_puts_the_label_in_front() {
    assert_eq!(move_txid("abc".to_string()), "txid: abc");
    assert_eq!(move_txid(String::new()), "txid: ");
    assert_eq!(
        move_txid("4a5e1e4baab89f3a32518a88c31bc87f".to_string()),
        "txid: 4a5e1e4baab89f3a32518a88c31bc87f"
    );
}

#[test]
fn outpoint_holds_a_txid_and_an_index() {
    let outpoint = Outpoint("deadbeef".to_string(), 3);
    assert_eq!(outpoint.0, "deadbeef");
    assert_eq!(outpoint.1, 3);
    assert_eq!(outpoint, Outpoint("deadbeef".to_string(), 3));
    assert_ne!(outpoint, Outpoint("deadbeef".to_string(), 4));
}

#[derive(Debug, PartialEq)]
struct Coupon {
    uses: u32,
}

impl UTXOfunc for Coupon {
    fn depense(&self) -> Self {
        Coupon { uses: self.uses + 1 }
    }
}

#[test]
fn other_types_can_be_spent_their_own_way() {
    let coupon = Coupon { uses: 0 };
    assert_eq!(coupon.depense(), Coupon { uses: 1 });
    assert_eq!(coupon, Coupon { uses: 0 });
}

#[test]
fn consumed_output_equals_a_copy_made_before() {
    for (txid, vout, value) in [
        (vec![], 0u32, 0u64),
        (vec![0x00], 1, 1),
        (vec![0xab; 32], 7, 2_100_000_000_000_000),
    ] {
        let utxo = UTXO { txid, vout, value };
        let before = utxo.clone();
        let spent = consume_utxo(utxo);
        assert!(spent == before);
        assert_eq!(spent.txid, before.txid);
        assert_eq!(spent.vout, before.vout);
        assert_eq!(spent.value, before.value);
    }
}

#[test]
fn outputs_that_differ_in_one_byte_are_not_equal() {
    let a = UTXO { txid: vec![1, 2, 3], vout: 0, value: 5 };
    let b = UTXO { txid: vec![1, 2, 4], vout: 0, value: 5 };
    let c = UTXO { txid: vec![1, 2], vout: 0, value: 5 };
    assert!(a != b);
    assert!(a != c);
    assert!(a == a.clone());
}
