//! Codec round trips, typed calls, payment plumbing and the reply writer.

use call_bridge::callback::CallbackContext;
use call_bridge::cell::CellStore;
use call_bridge::codec::{
    decode_nat64_args, decode_nat64_text_args, decode_unit_args, encode_nat64_args,
    encode_nat64_text_args, encode_unit_args,
};
use call_bridge::dispatch::{call_raw128, split_payment, CallRegistration, CyclesAdded};
use call_bridge::future::CallPoll;
use call_bridge::rejection::RejectionCode;
use call_bridge::reply::{reply_nat64, CallReplyWriter, ManualReply};
use call_bridge::state::ResumeHandle;
use call_bridge::typed::{
    call_nat64, call_nat64_with_payment, call_nat64_with_payment128, finish_call_nat64,
    loopback_call_nat64, loopback_call_nat64_text, loopback_call_raw, loopback_call_unit,
    msg_result_nat64, CallError,
};

#[test]
fn unit_encoding_is_the_bare_header() {
    let bytes = encode_unit_args().expect("the empty tuple encodes");
    assert_eq!(bytes, vec![0x44, 0x49, 0x44, 0x4c, 0x00, 0x00]);
    assert!(decode_unit_args(&bytes));
}

#[test]
fn nat64_encoding_round_trips() {
    for x in [0u64, 1, 42, u64::MAX] {
        let bytes = encode_nat64_args(x).expect("a 64-bit natural encodes");
        assert_eq!(decode_nat64_args(&bytes), Some(x));
    }
    // Distinct values have distinct encodings.
    assert_ne!(encode_nat64_args(7), encode_nat64_args(8));
}

#[test]
fn nat64_encoding_against_the_codec_crate() {
    // The wrapper agrees with the codec crate called directly.
    let direct = candid::utils::encode_args((7u64,)).unwrap();
    assert_eq!(encode_nat64_args(7), Some(direct.clone()));
    assert_eq!(decode_nat64_args(&direct), Some(7));
}

#[test]
fn pair_encoding_round_trips() {
    let bytes = encode_nat64_text_args(5, &"hello".to_string()).expect("a pair encodes");
    assert_eq!(
        decode_nat64_text_args(&bytes),
        Some((5, "hello".to_string()))
    );
}

#[test]
fn garbage_bytes_do_not_decode() {
    assert_eq!(decode_nat64_args(&vec![1, 2, 3]), None);
    assert!(!decode_unit_args(&vec![0xff]));
    assert_eq!(decode_nat64_text_args(&vec![]), None);
}

#[test]
fn loopback_reproduces_raw_bytes() {
    let mut store = CellStore::new();
    let outcome = loopback_call_raw(
        &mut store,
        vec![0xaa],
        "echo".to_string(),
        vec![1, 2, 3, 4],
    );
    assert_eq!(outcome, Ok(vec![1, 2, 3, 4]));
}

#[test]
fn loopback_reproduces_typed_arguments() {
    let mut store = CellStore::new();
    assert_eq!(
        loopback_call_unit(&mut store, vec![], "echo".to_string()),
        Ok(())
    );
    assert_eq!(
        loopback_call_nat64(&mut store, vec![], "echo".to_string(), 42),
        Ok(42)
    );
    assert_eq!(
        loopback_call_nat64_text(&mut store, vec![], "echo".to_string(), 9, "hi".to_string()),
        Ok((9, "hi".to_string()))
    );
}

#[test]
fn payment_spanning_both_words_is_split_correctly() {
    let amount = (1u128 << 64) + 42;
    assert_eq!(split_payment(amount), (1, 42));
    assert_eq!(split_payment(42), (0, 42));
    assert_eq!(split_payment(u128::MAX), (u64::MAX, u64::MAX));

    let mut store = CellStore::new();
    let (_fut, reg) = call_raw128(
        &mut store,
        vec![],
        "pay".to_string(),
        vec![],
        amount,
        0,
    );
    // Both halves are observed by the simulated crediting primitive.
    assert_eq!(reg.cycles, CyclesAdded::Added128(1, 42));
}

#[test]
fn zero_payment_skips_the_crediting_primitive() {
    let mut store = CellStore::new();
    let (_fut, reg) = call_raw128(&mut store, vec![], "pay".to_string(), vec![], 0, 0);
    assert_eq!(reg.cycles, CyclesAdded::NotAdded);
}

#[test]
fn typed_call_with_payment_records_the_amount() {
    let mut store = CellStore::new();
    let (_fut, reg) = call_nat64_with_payment(&mut store, vec![], "pay".to_string(), 1, 500, 0);
    assert_eq!(reg.cycles, CyclesAdded::Added(500));
    let (_fut2, reg2) = call_nat64_with_payment128(
        &mut store,
        vec![],
        "pay".to_string(),
        1,
        (1u128 << 64) + 7,
        0,
    );
    assert_eq!(reg2.cycles, CyclesAdded::Added128(1, 7));
}

#[test]
fn typed_call_passes_rejections_through() {
    let mut store = CellStore::new();
    let (fut, reg) = call_nat64(&mut store, vec![], "greet".to_string(), 3, 3);
    assert!(matches!(reg.cycles, CyclesAdded::NotAdded));
    match fut.poll(&mut store, ResumeHandle { task: 1 }) {
        CallPoll::Ready(outcome) => {
            assert_eq!(
                finish_call_nat64(outcome),
                Err(CallError::Rejected(
                    RejectionCode::DestinationInvalid,
                    "Couldn't send message".to_string()
                ))
            );
        }
        CallPoll::Pending => panic!("a synchronous failure is ready at once"),
    }
}

#[test]
fn malformed_reply_is_reported_as_decode_failure() {
    assert_eq!(
        finish_call_nat64(Ok(vec![0xde, 0xad])),
        Err(CallError::DecodeFailed)
    );
}

#[test]
fn typed_call_registers_the_encoded_payload() {
    let mut store = CellStore::new();
    let (_fut, reg) = call_nat64(&mut store, vec![1], "greet".to_string(), 7, 0);
    let CallRegistration { payload, .. } = reg;
    assert_eq!(Some(payload), encode_nat64_args(7));
}

#[test]
fn inbound_result_follows_the_rejection_code() {
    let good = CallbackContext {
        reject_code: 0,
        arg_data: encode_nat64_args(21).unwrap(),
        reject_message: String::new(),
    };
    assert_eq!(msg_result_nat64(good), Ok(21));
    let rejected = CallbackContext {
        reject_code: 4,
        arg_data: Vec::new(),
        reject_message: "busy".to_string(),
    };
    assert_eq!(msg_result_nat64(rejected), Err("busy".to_string()));
    let malformed = CallbackContext {
        reject_code: 0,
        arg_data: vec![1, 2, 3],
        reject_message: String::new(),
    };
    assert_eq!(
        msg_result_nat64(malformed),
        Err("Failed to decode arguments".to_string())
    );
}

#[test]
fn reply_writer_accumulates_chunks() {
    let mut w = CallReplyWriter::new();
    assert_eq!(w.write(&[1, 2]), 2);
    assert_eq!(w.write(&[]), 0);
    assert_eq!(w.write(&[3]), 1);
    w.flush();
    assert_eq!(w.data, vec![1, 2, 3]);
}

#[test]
fn reply_nat64_appends_the_encoding() {
    let mut w = CallReplyWriter::new();
    reply_nat64(&mut w, 11);
    assert_eq!(Some(w.data), encode_nat64_args(11));
    let _marker: ManualReply<u64> = ManualReply::empty();
}
