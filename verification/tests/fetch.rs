use hazardflow::cpu::branch_predictor::pre_decode::PreDecodeResp;
use hazardflow::cpu::branch_predictor::{Bp, BpResult, BpUpdate};
use hazardflow::cpu::decode::DecR;
use hazardflow::cpu::fetch::{fetch, next_pc, FetEP, FetS, Ready};
use hazardflow::cpu::mem_interface::{MemOpFcn, MemOpTyp, MemReq, MemRespWithAddr};

const NOP: u32 = 0x0000_0013;
const RET: u32 = 0x0000_8067;
const BEQ_PLUS_8: u32 = 0x0000_0463;
const JAL_MINUS_4: u32 = 0xffdf_f06f;

fn fetched(addr: u32, pre_decode: PreDecodeResp, bht: bool, btb: u32) -> FetEP {
    FetEP {
        imem_resp: MemRespWithAddr { addr, data: 0 },
        bp_result: BpResult { pre_decode, bht, btb },
        bp_update: None,
    }
}

fn class(is_jal: bool, is_jalr: bool, is_branch: bool, imm: u32) -> PreDecodeResp {
    PreDecodeResp { is_jal, is_jalr, is_branch, imm }
}

const QUIET: DecR = DecR { redirect: None, bp_update: None };

#[test]
fn next_pc_redirect_wins() {
    let update = Some(BpUpdate::Bht { pc: 100, taken: true });
    let decr = DecR { redirect: Some(200), bp_update: update };
    let p = fetched(100, class(true, false, false, 64), true, 300);
    assert_eq!(next_pc(Some(p), decr), Some(200));
    assert_eq!(next_pc(None, decr), Some(200));
}

#[test]
fn next_pc_holds_without_instruction() {
    assert_eq!(next_pc(None, QUIET), None);
    let decr = DecR { redirect: None, bp_update: Some(BpUpdate::Btb { pc: 4, target: 8 }) };
    assert_eq!(next_pc(None, decr), None);
}

#[test]
fn next_pc_follows_an_unconditional_jump() {
    let p = fetched(100, class(true, false, false, 64), false, 104);
    assert_eq!(next_pc(Some(p), QUIET), Some(164));
    let back = fetched(100, class(true, false, false, 0xffff_fffc), false, 104);
    assert_eq!(next_pc(Some(back), QUIET), Some(96));
}

#[test]
fn next_pc_follows_the_btb_for_an_indirect_jump() {
    let hit = fetched(40, class(false, true, false, 0), false, 500);
    assert_eq!(next_pc(Some(hit), QUIET), Some(500));
    let miss = fetched(40, class(false, true, false, 0), false, 44);
    assert_eq!(next_pc(Some(miss), QUIET), Some(44));
}

#[test]
fn next_pc_follows_the_bht_for_a_conditional_branch() {
    let taken = fetched(100, class(false, false, true, 8), true, 104);
    assert_eq!(next_pc(Some(taken), QUIET), Some(108));
    let not_taken = fetched(100, class(false, false, true, 8), false, 104);
    assert_eq!(next_pc(Some(not_taken), QUIET), Some(104));
}

#[test]
fn next_pc_is_sequential_otherwise() {
    let p = fetched(100, class(false, false, false, 0), true, 900);
    assert_eq!(next_pc(Some(p), QUIET), Some(104));
    let last = fetched(0xffff_fffc, class(false, false, false, 0), false, 0);
    assert_eq!(next_pc(Some(last), QUIET), Some(0));
}

#[test]
fn fetch_state_at_reset() {
    let s = FetS::new(0x8000_0000);
    assert_eq!(s.pc, 0x8000_0000);
    assert_eq!(s.bp, Bp::default());
}

#[test]
fn fetch_holds_at_start_address_until_an_instruction_arrives() {
    let s = FetS::new(0x8000_0000);
    let out = fetch(s, None, Ready::new(true, QUIET));
    assert_eq!(out.next, s);
    assert_eq!(
        out.imem_req,
        MemReq { addr: 0x8000_0000, data: 0, fcn: MemOpFcn::Load, typ: MemOpTyp::WU }
    );
    assert_eq!(out.payload, None);
}

#[test]
fn fetch_forwards_the_instruction_with_its_prediction() {
    let s = FetS::new(100);
    let resp = MemRespWithAddr { addr: 100, data: NOP };
    let out = fetch(s, Some(resp), Ready::new(true, QUIET));
    assert_eq!(
        out.payload,
        Some(FetEP { imem_resp: resp, bp_result: s.bp.predict(resp), bp_update: None })
    );
    assert!(out.consumed);
    assert_eq!(out.next.pc, 104);
    assert_eq!(out.next.bp, s.bp);
    assert_eq!(out.imem_req.addr, 100);
}

#[test]
fn fetch_follows_its_own_prediction() {
    let s = FetS::new(100);
    let out = fetch(s, Some(MemRespWithAddr { addr: 100, data: JAL_MINUS_4 }), Ready::new(true, QUIET));
    assert_eq!(out.next.pc, 96);

    let out = fetch(s, Some(MemRespWithAddr { addr: 100, data: RET }), Ready::new(true, QUIET));
    assert_eq!(out.next.pc, 104);

    let out = fetch(s, Some(MemRespWithAddr { addr: 100, data: BEQ_PLUS_8 }), Ready::new(true, QUIET));
    assert_eq!(out.next.pc, 104);

    let trained = FetS { pc: 100, bp: s.bp.update(BpUpdate::Bht { pc: 100, taken: true }) };
    let out = fetch(trained, Some(MemRespWithAddr { addr: 100, data: BEQ_PLUS_8 }), Ready::new(true, QUIET));
    assert_eq!(out.next.pc, 108);
}

#[test]
fn fetch_drops_the_pending_instruction_on_redirect() {
    let s = FetS::new(100);
    let resp = MemRespWithAddr { addr: 100, data: NOP };
    for ready in [false, true] {
        let decr = DecR { redirect: Some(200), bp_update: None };
        let out = fetch(s, Some(resp), Ready::new(ready, decr));
        assert_eq!(out.payload, None);
        assert!(out.consumed);
        assert_eq!(out.next.pc, 200);
    }
}

#[test]
fn fetch_redirects_without_a_pending_instruction() {
    let s = FetS::new(100);
    let decr = DecR { redirect: Some(200), bp_update: None };
    let out = fetch(s, None, Ready::new(false, decr));
    assert_eq!(out.payload, None);
    assert!(out.consumed);
    assert_eq!(out.next.pc, 200);
}

#[test]
fn fetch_holds_under_backpressure() {
    let s = FetS::new(100);
    let resp = MemRespWithAddr { addr: 100, data: NOP };
    let out = fetch(s, Some(resp), Ready::new(false, QUIET));
    assert!(!out.consumed);
    assert_eq!(out.next.pc, 100);
    assert_eq!(
        out.payload,
        Some(FetEP { imem_resp: resp, bp_result: s.bp.predict(resp), bp_update: None })
    );
}

#[test]
fn fetch_applies_the_update_before_predicting() {
    let s = FetS::new(100);
    let update = BpUpdate::Btb { pc: 100, target: 500 };
    let decr = DecR { redirect: None, bp_update: Some(update) };
    let resp = MemRespWithAddr { addr: 100, data: RET };
    let out = fetch(s, Some(resp), Ready::new(true, decr));
    assert_eq!(out.next.bp, s.bp.update(update));
    assert_eq!(out.payload.unwrap().bp_result.btb, 500);
    assert_eq!(out.next.pc, 500);

    // The update is applied under backpressure and on a redirect too.
    let out = fetch(s, Some(resp), Ready::new(false, decr));
    assert_eq!(out.next.bp, s.bp.update(update));
    let redirected = DecR { redirect: Some(8), bp_update: Some(update) };
    let out = fetch(s, None, Ready::new(false, redirected));
    assert_eq!(out.next.bp, s.bp.update(update));
}

#[test]
fn mispredicted_branch_is_corrected_and_learned() {
    // A taken branch at 100 to 108 is fetched with a predictor that knows nothing.
    let s = FetS::new(100);
    let resp = MemRespWithAddr { addr: 100, data: BEQ_PLUS_8 };
    let out = fetch(s, Some(resp), Ready::new(true, QUIET));
    assert_eq!(out.next.pc, 104);
    // The execute stage resolves it as taken: redirect and update come back.
    let decr =
        DecR { redirect: Some(108), bp_update: Some(BpUpdate::Bht { pc: 100, taken: true }) };
    let wrong_path = MemRespWithAddr { addr: 104, data: NOP };
    let out = fetch(out.next, Some(wrong_path), Ready::new(true, decr));
    assert_eq!(out.payload, None);
    assert_eq!(out.next.pc, 108);
    // Fetched again, the branch is predicted taken.
    let again = FetS { pc: 100, bp: out.next.bp };
    let out = fetch(again, Some(resp), Ready::new(true, QUIET));
    assert_eq!(out.next.pc, 108);
}
