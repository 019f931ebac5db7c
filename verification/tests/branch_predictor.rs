use hazardflow::cpu::branch_predictor::bht::{Bht, SatCounter, BHT_ENTRIES};
use hazardflow::cpu::branch_predictor::btb::{Btb, BTB_ENTRIES};
use hazardflow::cpu::branch_predictor::pre_decode::{pre_decode, PreDecodeResp};
use hazardflow::cpu::branch_predictor::{add_words, Bp, BpResult, BpUpdate};
use hazardflow::cpu::mem_interface::MemRespWithAddr;

const ALL: [SatCounter; 4] = [
    SatCounter::StronglyNotTaken,
    SatCounter::WeaklyNotTaken,
    SatCounter::WeaklyTaken,
    SatCounter::StronglyTaken,
];

#[test]
fn counter_increment_moves_one_step_and_saturates() {
    assert_eq!(SatCounter::StronglyNotTaken.increment(), SatCounter::WeaklyNotTaken);
    assert_eq!(SatCounter::WeaklyNotTaken.increment(), SatCounter::WeaklyTaken);
    assert_eq!(SatCounter::WeaklyTaken.increment(), SatCounter::StronglyTaken);
    assert_eq!(SatCounter::StronglyTaken.increment(), SatCounter::StronglyTaken);
}

#[test]
fn counter_decrement_moves_one_step_and_saturates() {
    assert_eq!(SatCounter::StronglyTaken.decrement(), SatCounter::WeaklyTaken);
    assert_eq!(SatCounter::WeaklyTaken.decrement(), SatCounter::WeaklyNotTaken);
    assert_eq!(SatCounter::WeaklyNotTaken.decrement(), SatCounter::StronglyNotTaken);
    assert_eq!(SatCounter::StronglyNotTaken.decrement(), SatCounter::StronglyNotTaken);
}

#[test]
fn counter_predicts_taken_in_the_two_taken_states() {
    assert!(!SatCounter::StronglyNotTaken.predict());
    assert!(!SatCounter::WeaklyNotTaken.predict());
    assert!(SatCounter::WeaklyTaken.predict());
    assert!(SatCounter::StronglyTaken.predict());
}

#[test]
fn counter_default_is_weakly_not_taken() {
    assert_eq!(SatCounter::default(), SatCounter::WeaklyNotTaken);
}

#[test]
fn counter_stays_saturated_under_same_direction_calls() {
    for start in ALL {
        let mut up = start;
        let mut down = start;
        for round in 0..10 {
            up = up.increment();
            down = down.decrement();
            if round >= 2 {
                assert_eq!(up, SatCounter::StronglyTaken);
                assert!(up.predict());
                assert_eq!(down, SatCounter::StronglyNotTaken);
                assert!(!down.predict());
            }
        }
    }
}

#[test]
fn counter_never_skips_a_state() {
    let level = |c: SatCounter| ALL.iter().position(|x| *x == c).unwrap() as i32;
    for c in ALL {
        assert!((level(c.increment()) - level(c)).abs() <= 1);
        assert!((level(c.decrement()) - level(c)).abs() <= 1);
        assert!(level(c.increment()) >= level(c));
        assert!(level(c.decrement()) <= level(c));
    }
}

#[test]
fn bht_starts_weakly_not_taken() {
    let bht = Bht::default();
    assert_eq!(bht.entries.len(), BHT_ENTRIES);
    assert!(bht.entries.iter().all(|c| *c == SatCounter::WeaklyNotTaken));
    assert!(!bht.predict(0));
    assert!(!bht.predict(0xffff_ffff));
}

#[test]
fn bht_entry_three_predicts_taken_after_three_taken_updates() {
    let bht = Bht::default();
    assert_eq!(bht.entries[3], SatCounter::WeaklyNotTaken);
    assert!(!bht.predict(3));
    let bht = bht.update(3, true);
    assert_eq!(bht.entries[3], SatCounter::WeaklyTaken);
    assert!(bht.predict(3));
    let bht = bht.update(3, true);
    assert_eq!(bht.entries[3], SatCounter::StronglyTaken);
    assert!(bht.predict(3));
    let bht = bht.update(3, true);
    assert_eq!(bht.entries[3], SatCounter::StronglyTaken);
    assert!(bht.predict(3));
}

#[test]
fn bht_update_changes_only_the_addressed_entry() {
    let before = Bht::default().update(5, true);
    let after = before.update(77, false);
    for i in 0..BHT_ENTRIES {
        if i == 77 {
            assert_eq!(after.entries[i], SatCounter::StronglyNotTaken);
        } else {
            assert_eq!(after.entries[i], before.entries[i]);
        }
    }
    assert_eq!(before.entries[5], SatCounter::WeaklyTaken);
}

#[test]
fn bht_indexes_by_pc_modulo_capacity() {
    let pc1: u32 = 9;
    let pc2: u32 = 9 + 5 * BHT_ENTRIES as u32;
    let bht = Bht::default().update(pc1, true);
    assert!(bht.predict(pc2));
    assert_eq!(bht, Bht::default().update(pc2, true));
    assert!(!bht.predict(pc1 + 1));
    let high = Bht::default().update(0xffff_ffff, true);
    assert_eq!(high.entries[BHT_ENTRIES - 1], SatCounter::WeaklyTaken);
}

#[test]
fn btb_starts_empty() {
    let btb = Btb::default();
    assert_eq!(btb.entries.len(), BTB_ENTRIES);
    assert!(btb.entries.iter().all(|e| e.is_none()));
    assert_eq!(btb.predict(40), None);
}

#[test]
fn btb_update_overwrites_the_addressed_entry() {
    let btb = Btb::default().update(40, 500);
    assert_eq!(btb.predict(40), Some(500));
    assert_eq!(btb.entries[40 % BTB_ENTRIES], Some(500));
    let btb = btb.update(40, 600);
    assert_eq!(btb.predict(40), Some(600));
    for i in 0..BTB_ENTRIES {
        if i != 40 % BTB_ENTRIES {
            assert_eq!(btb.entries[i], None);
        }
    }
}

#[test]
fn btb_aliases_by_pc_modulo_capacity() {
    let pc1: u32 = 7;
    let pc2: u32 = 7 + 3 * BTB_ENTRIES as u32;
    let btb = Btb::default().update(pc1, 0x1234);
    assert_eq!(btb.predict(pc2), Some(0x1234));
    assert_eq!(btb.predict(pc1 + 1), None);
}

#[test]
fn btb_update_is_idempotent() {
    let once = Btb::default().update(12, 96).update(40, 500);
    let twice = once.update(40, 500);
    assert_eq!(once, twice);
    for pc in 0..200u32 {
        assert_eq!(once.predict(pc), twice.predict(pc));
    }
}

#[test]
fn add_words_wraps_at_32_bits() {
    assert_eq!(add_words(100, 4), 104);
    assert_eq!(add_words(0xffff_fffc, 4), 0);
    assert_eq!(add_words(100, 0xffff_fffc), 96);
    assert_eq!(add_words(0xffff_ffff, 0xffff_ffff), 0xffff_fffe);
}

#[test]
fn pre_decode_classifies_jal() {
    // jal x1, +8
    assert_eq!(
        pre_decode(0x0080_00ef),
        PreDecodeResp { is_jal: true, is_jalr: false, is_branch: false, imm: 8 }
    );
    // jal x0, -4
    assert_eq!(
        pre_decode(0xffdf_f06f),
        PreDecodeResp { is_jal: true, is_jalr: false, is_branch: false, imm: 0xffff_fffc }
    );
    // jal x0, +0xff000 + 0x800 + 2: every field of the offset in use
    let inst: u32 = (0xff << 12) | (1 << 20) | (1 << 21) | 0x6f;
    assert_eq!(pre_decode(inst).imm, 0xff000 + 0x800 + 2);
}

#[test]
fn pre_decode_classifies_branches() {
    // beq x0, x0, +8
    assert_eq!(
        pre_decode(0x0000_0463),
        PreDecodeResp { is_jal: false, is_jalr: false, is_branch: true, imm: 8 }
    );
    // bne x1, x2, -8
    assert_eq!(
        pre_decode(0xfe20_9ce3),
        PreDecodeResp { is_jal: false, is_jalr: false, is_branch: true, imm: 0xffff_fff8 }
    );
    // bit 7 of the word is bit 11 of the offset
    assert_eq!(pre_decode(0x0000_00e3).imm, 0x800);
    // bits 30 to 25 of the word are bits 10 to 5 of the offset
    assert_eq!(pre_decode(0x7e00_0063).imm, 0x7e0);
}

#[test]
fn pre_decode_classifies_jalr_and_others() {
    // ret
    assert_eq!(
        pre_decode(0x0000_8067),
        PreDecodeResp { is_jal: false, is_jalr: true, is_branch: false, imm: 0 }
    );
    // nop
    assert_eq!(
        pre_decode(0x0000_0013),
        PreDecodeResp { is_jal: false, is_jalr: false, is_branch: false, imm: 0 }
    );
    // a load with all upper bits set is no branch and has no offset
    assert_eq!(
        pre_decode(0xffff_ff83),
        PreDecodeResp { is_jal: false, is_jalr: false, is_branch: false, imm: 0 }
    );
}

#[test]
fn predictor_at_reset_predicts_not_taken_and_fall_through() {
    let bp = Bp::default();
    let result = bp.predict(MemRespWithAddr { addr: 40, data: 0x0000_8067 });
    assert_eq!(
        result,
        BpResult {
            pre_decode: PreDecodeResp { is_jal: false, is_jalr: true, is_branch: false, imm: 0 },
            bht: false,
            btb: 44,
        }
    );
    let last = bp.predict(MemRespWithAddr { addr: 0xffff_fffc, data: 0x0000_0013 });
    assert_eq!(last.btb, 0);
}

#[test]
fn predictor_update_dispatches_on_the_event() {
    let bp = Bp::default();
    let with_target = bp.update(BpUpdate::Btb { pc: 40, target: 500 });
    assert_eq!(with_target.bht, bp.bht);
    assert_eq!(with_target.btb, bp.btb.update(40, 500));
    assert_eq!(with_target.predict(MemRespWithAddr { addr: 40, data: 0x0000_8067 }).btb, 500);

    let with_direction = bp.update(BpUpdate::Bht { pc: 100, taken: true });
    assert_eq!(with_direction.btb, bp.btb);
    assert_eq!(with_direction.bht, bp.bht.update(100, true));
    assert!(with_direction.predict(MemRespWithAddr { addr: 100, data: 0x0000_0463 }).bht);
}

#[test]
fn predictor_absent_update_leaves_state_unchanged() {
    let bp = Bp::default().update(BpUpdate::Bht { pc: 8, taken: true });
    assert_eq!(bp.update_opt(None), bp);
    assert_eq!(
        bp.update_opt(Some(BpUpdate::Btb { pc: 8, target: 16 })),
        bp.update(BpUpdate::Btb { pc: 8, target: 16 })
    );
}

#[test]
fn predict_does_not_change_the_predictor() {
    let bp = Bp::default().update(BpUpdate::Bht { pc: 8, taken: true });
    let copy = bp;
    let _ = bp.predict(MemRespWithAddr { addr: 8, data: 0x0000_0463 });
    assert_eq!(bp, copy);
}
