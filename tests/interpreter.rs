use arrayvec::ArrayVec;
use kadena_core::capability_args::{
    CapabilityArgs, KadenaCapabilityArgsInterp, KadenaCapabilityArgsInterpState, NumberSlot, StringSlot,
};
use kadena_core::coverage::{reduce_coverage, CapabilityCoverage};
use kadena_core::cross_chain::{classify_code, cross_chain_summary, match_cross_chain};
use kadena_core::document::{DocEvent, KadenaCmdInterp, KadenaCmdState};
use kadena_core::policy::{check_capability, needs_unsafe_warning, signer_coverage, CapabilityPrompt, CommandData};
use kadena_core::session::{
    get_get_address_state, get_sign_state, reset_parsers_state, ParsersState, PathState, SignPhase,
};
use kadena_core::token::{JsonToken, Outcome};

fn s(x: &str) -> JsonToken {
    JsonToken::Str(x.as_bytes().to_vec())
}

fn n(x: &str) -> JsonToken {
    JsonToken::Number(x.as_bytes().to_vec())
}

fn run_args(tokens: &[JsonToken]) -> (Outcome, Option<CapabilityArgs>) {
    let interp = KadenaCapabilityArgsInterp;
    let mut st = interp.init();
    let mut dest = None;
    let mut last = Outcome::Continue;
    for (i, t) in tokens.iter().enumerate() {
        last = interp.parse(&mut st, t, &mut dest);
        if last != Outcome::Continue {
            assert!(last == Outcome::Reject || i + 1 == tokens.len());
            break;
        }
    }
    (last, dest)
}

fn some_bytes(x: &str) -> Option<Option<Vec<u8>>> {
    Some(Some(x.as_bytes().to_vec()))
}

fn slot<const N: usize>(s: &Option<Option<ArrayVec<u8, N>>>) -> Option<Option<Vec<u8>>> {
    s.as_ref().map(|o| o.as_ref().map(|v| v.as_slice().to_vec()))
}

fn sa(x: &str) -> StringSlot {
    Some(Some(ArrayVec::try_from(x.as_bytes()).unwrap()))
}

fn nm(x: &str) -> ArrayVec<u8, 14> {
    ArrayVec::try_from(x.as_bytes()).unwrap()
}

fn na(x: &str) -> NumberSlot {
    Some(Some(ArrayVec::try_from(x.as_bytes()).unwrap()))
}

#[test]
fn coverage_monoid_combines() {
    let mut c = CapabilityCoverage::zero();
    assert_eq!(c, CapabilityCoverage::Full);
    c.add_and_set(&CapabilityCoverage::Full);
    assert_eq!(c, CapabilityCoverage::Full);
    c.add_and_set(&CapabilityCoverage::NotFull);
    assert_eq!(c, CapabilityCoverage::NotFull);
    c.add_and_set(&CapabilityCoverage::Full);
    assert_eq!(c, CapabilityCoverage::NotFull);
}

#[test]
fn coverage_reduction_is_order_independent() {
    let full = CapabilityCoverage::Full;
    let not_full = CapabilityCoverage::NotFull;
    assert_eq!(reduce_coverage(&vec![]), full);
    assert_eq!(reduce_coverage(&vec![full, full]), full);
    assert_eq!(reduce_coverage(&vec![full, not_full]), not_full);
    assert_eq!(reduce_coverage(&vec![not_full, full]), not_full);
}

#[test]
fn args_three_elements_positional() {
    let toks = vec![
        JsonToken::BeginArray,
        s("alice"),
        JsonToken::ValueSeparator,
        s("bob"),
        JsonToken::ValueSeparator,
        n("10.5"),
        JsonToken::EndArray,
    ];
    let (o, d) = run_args(&toks);
    assert_eq!(o, Outcome::Complete);
    let d = d.unwrap();
    assert_eq!(slot(&d.first), some_bytes("alice"));
    assert_eq!(slot(&d.second), some_bytes("bob"));
    assert_eq!(slot(&d.third), some_bytes("10.5"));
}

#[test]
fn args_empty_and_short_arrays() {
    let (o, d) = run_args(&[JsonToken::BeginArray, JsonToken::EndArray]);
    assert_eq!(o, Outcome::Complete);
    let d = d.unwrap();
    assert_eq!((d.first, d.second, d.third), (None, None, None));
    let (o, d) = run_args(&[JsonToken::BeginArray, s("k:abc"), JsonToken::EndArray]);
    assert_eq!(o, Outcome::Complete);
    let d = d.unwrap();
    assert_eq!(slot(&d.first), some_bytes("k:abc"));
    assert_eq!(d.second, None);
    assert_eq!(d.third, None);
}

#[test]
fn args_extra_elements_are_skipped() {
    let toks = vec![
        JsonToken::BeginArray,
        s("a"),
        JsonToken::ValueSeparator,
        s("b"),
        JsonToken::ValueSeparator,
        n("1"),
        JsonToken::ValueSeparator,
        JsonToken::BeginArray,
        JsonToken::BeginObject,
        s("x"),
        JsonToken::NameSeparator,
        n("2"),
        JsonToken::EndObject,
        JsonToken::EndArray,
        JsonToken::ValueSeparator,
        JsonToken::True,
        JsonToken::EndArray,
    ];
    let (o, d) = run_args(&toks);
    assert_eq!(o, Outcome::Complete);
    let d = d.unwrap();
    assert_eq!(slot(&d.first), some_bytes("a"));
    assert_eq!(slot(&d.second), some_bytes("b"));
    assert_eq!(slot(&d.third), some_bytes("1"));
}

#[test]
fn args_wrong_type_is_present_but_empty() {
    let toks = vec![
        JsonToken::BeginArray,
        n("5"),
        JsonToken::ValueSeparator,
        JsonToken::BeginObject,
        s("int"),
        JsonToken::NameSeparator,
        n("1"),
        JsonToken::EndObject,
        JsonToken::ValueSeparator,
        s("not a number"),
        JsonToken::EndArray,
    ];
    let (o, d) = run_args(&toks);
    assert_eq!(o, Outcome::Complete);
    let d = d.unwrap();
    assert_eq!(d.first, Some(None));
    assert_eq!(d.second, Some(None));
    assert_eq!(d.third, Some(None));
}

#[test]
fn args_reject_oversized_and_malformed() {
    let long = "x".repeat(129);
    let (o, _) = run_args(&[JsonToken::BeginArray, s(&long)]);
    assert_eq!(o, Outcome::Reject);
    let fits = "x".repeat(128);
    let (o, _) = run_args(&[JsonToken::BeginArray, s(&fits), JsonToken::EndArray]);
    assert_eq!(o, Outcome::Complete);
    let third = |x: &str| vec![
        JsonToken::BeginArray, s("a"), JsonToken::ValueSeparator, s("b"), JsonToken::ValueSeparator, n(x),
        JsonToken::EndArray,
    ];
    let (o, d) = run_args(&third(&"9".repeat(20)));
    assert_eq!(o, Outcome::Complete);
    assert_eq!(slot(&d.unwrap().third), some_bytes(&"9".repeat(20)));
    let (o, _) = run_args(&third(&"9".repeat(21)));
    assert_eq!(o, Outcome::Reject);
    let (o, _) = run_args(&[JsonToken::BeginObject]);
    assert_eq!(o, Outcome::Reject);
    let (o, _) = run_args(&[JsonToken::BeginArray, s("a"), s("b")]);
    assert_eq!(o, Outcome::Reject);
    let (o, _) = run_args(&[JsonToken::BeginArray, s("a"), JsonToken::ValueSeparator, JsonToken::EndArray]);
    assert_eq!(o, Outcome::Reject);
    let mut st = KadenaCapabilityArgsInterpState::Start;
    let mut dest = None;
    assert_eq!(KadenaCapabilityArgsInterp.parse(&mut st, &s("a"), &mut dest), Outcome::Reject);
}

fn args(a: StringSlot, b: StringSlot, c: NumberSlot) -> CapabilityArgs {
    CapabilityArgs { first: a, second: b, third: c }
}

#[test]
fn gas_capability_without_arguments_is_accepted() {
    let r = check_capability(&nm("coin.GAS"), &args(None, None, None));
    assert!(matches!(r, Some(CapabilityPrompt::PayingGas)));
}

#[test]
fn gas_capability_with_arguments_is_rejected() {
    assert!(check_capability(&nm("coin.GAS"), &args(sa("a"), None, None)).is_none());
    assert!(check_capability(&nm("coin.GAS"), &args(None, None, Some(None))).is_none());
}

#[test]
fn rotate_and_transfer_shapes() {
    match check_capability(&nm("coin.ROTATE"), &args(sa("acct"), None, None)) {
        Some(CapabilityPrompt::Rotate { account }) => assert_eq!(account, b"acct".to_vec()),
        other => panic!("unexpected {:?}", other),
    }
    assert!(check_capability(&nm("coin.ROTATE"), &args(Some(None), None, None)).is_none());
    match check_capability(&nm("coin.TRANSFER"), &args(sa("a"), sa("b"), na("1.0"))) {
        Some(CapabilityPrompt::Transfer { amount, sender, receiver }) => {
            assert_eq!(amount, b"1.0".to_vec());
            assert_eq!(sender, b"a".to_vec());
            assert_eq!(receiver, b"b".to_vec());
        },
        other => panic!("unexpected {:?}", other),
    }
    assert!(check_capability(&nm("coin.TRANSFER"), &args(sa("a"), sa("b"), Some(None))).is_none());
    assert!(matches!(
        check_capability(&nm("coin.OTHER"), &args(None, None, None)),
        Some(CapabilityPrompt::Unrecognized)
    ));
}

#[test]
fn signer_coverage_rule() {
    assert_eq!(signer_coverage(1, 0), CapabilityCoverage::Full);
    assert_eq!(signer_coverage(0, 0), CapabilityCoverage::NotFull);
    assert_eq!(signer_coverage(3, 1), CapabilityCoverage::NotFull);
}

#[test]
fn cross_chain_template_is_known() {
    let code = b"(coin.transfer-crosschain \"A\" \"B\" (read-keyset \"ks\") \"C\" 10.5)";
    let x = match_cross_chain(code).unwrap();
    assert_eq!(x.from, b"A".to_vec());
    assert_eq!(x.to, b"B".to_vec());
    assert_eq!(x.chain, b"C".to_vec());
    assert_eq!(x.amount, b"10.5".to_vec());
    assert_eq!(cross_chain_summary(&x), b"Cross-chain 10.5 from A to B on chain C".to_vec());
    let (class, shown) = classify_code(Some(&code[..]));
    assert_eq!(class, CommandData::Known);
    assert!(shown.is_some());
}

#[test]
fn cross_chain_variants_are_unknown() {
    let bad = [
        "(coin.transfer-crosschain \"A\"x\" \"B\" (read-keyset \"ks\") \"C\" 10.5)",
        "(coin.transfer-crosschain \"A\" \"B\" (read-keyset \"ks\") \"C\" 10x5)",
        "(coin.transfer-crosschain \"A\" \"B\" (read-keyset \"ks\") \"C\" 10.5) ",
        "(coin.transfer \"A\" \"B\" 10.5)",
        "",
    ];
    for b in bad.iter() {
        assert!(match_cross_chain(b.as_bytes()).is_none(), "{}", b);
        assert_eq!(classify_code(Some(b.as_bytes())).0, CommandData::Unknown);
    }
    assert_eq!(classify_code(None).0, CommandData::Unknown);
}

#[test]
fn unsafe_warning_gating() {
    let (full, not_full) = (CapabilityCoverage::Full, CapabilityCoverage::NotFull);
    let (known, unknown) = (CommandData::Known, CommandData::Unknown);
    assert!(needs_unsafe_warning(Some(unknown), Some(not_full)));
    assert!(!needs_unsafe_warning(Some(known), Some(not_full)));
    assert!(!needs_unsafe_warning(Some(unknown), Some(full)));
    assert!(!needs_unsafe_warning(Some(known), Some(full)));
    assert!(needs_unsafe_warning(None, None));
}

fn cap_tokens(out: &mut Vec<JsonToken>, name: &str, arg_tokens: Vec<JsonToken>) {
    out.push(JsonToken::BeginObject);
    out.push(s("name"));
    out.push(JsonToken::NameSeparator);
    out.push(s(name));
    out.push(JsonToken::ValueSeparator);
    out.push(s("args"));
    out.push(JsonToken::NameSeparator);
    out.extend(arg_tokens);
    out.push(JsonToken::EndObject);
}

fn signer_tokens(out: &mut Vec<JsonToken>, key: &str, caps: Vec<Vec<JsonToken>>) {
    out.push(JsonToken::BeginObject);
    out.push(s("pubKey"));
    out.push(JsonToken::NameSeparator);
    out.push(s(key));
    out.push(JsonToken::ValueSeparator);
    out.push(s("clist"));
    out.push(JsonToken::NameSeparator);
    out.push(JsonToken::BeginArray);
    for (i, c) in caps.into_iter().enumerate() {
        if i > 0 {
            out.push(JsonToken::ValueSeparator);
        }
        out.extend(c);
    }
    out.push(JsonToken::EndArray);
    out.push(JsonToken::EndObject);
}

fn transfer_cap() -> Vec<JsonToken> {
    let mut c = Vec::new();
    cap_tokens(&mut c, "coin.TRANSFER", vec![
        JsonToken::BeginArray, s("k:a"), JsonToken::ValueSeparator, s("k:b"),
        JsonToken::ValueSeparator, n("1.5"), JsonToken::EndArray,
    ]);
    c
}

fn document(code: &str, signers: Vec<Vec<JsonToken>>) -> Vec<JsonToken> {
    let mut d = vec![
        JsonToken::BeginObject,
        s("networkId"), JsonToken::NameSeparator, s("mainnet01"), JsonToken::ValueSeparator,
        s("payload"), JsonToken::NameSeparator, JsonToken::BeginObject,
        s("exec"), JsonToken::NameSeparator, JsonToken::BeginObject,
        s("data"), JsonToken::NameSeparator, JsonToken::Null, JsonToken::ValueSeparator,
        s("code"), JsonToken::NameSeparator, s(code),
        JsonToken::EndObject, JsonToken::EndObject, JsonToken::ValueSeparator,
        s("signers"), JsonToken::NameSeparator, JsonToken::BeginArray,
    ];
    for (i, sg) in signers.into_iter().enumerate() {
        if i > 0 {
            d.push(JsonToken::ValueSeparator);
        }
        d.extend(sg);
    }
    d.extend(vec![
        JsonToken::EndArray, JsonToken::ValueSeparator,
        s("meta"), JsonToken::NameSeparator, JsonToken::BeginObject,
        s("creationTime"), JsonToken::NameSeparator, n("1600000000"), JsonToken::ValueSeparator,
        s("ttl"), JsonToken::NameSeparator, n("28800"), JsonToken::ValueSeparator,
        s("gasLimit"), JsonToken::NameSeparator, n("600"), JsonToken::ValueSeparator,
        s("chainId"), JsonToken::NameSeparator, s("0"), JsonToken::ValueSeparator,
        s("gasPrice"), JsonToken::NameSeparator, n("1.0e-5"), JsonToken::ValueSeparator,
        s("sender"), JsonToken::NameSeparator, s("k:a"),
        JsonToken::EndObject, JsonToken::ValueSeparator,
        s("nonce"), JsonToken::NameSeparator, s("2021-01-01"),
        JsonToken::EndObject,
    ]);
    d
}

fn feed(st: &mut KadenaCmdState, toks: &[JsonToken], events: &mut Vec<DocEvent>) -> Outcome {
    let mut last = Outcome::Continue;
    for t in toks {
        assert_eq!(last, Outcome::Continue);
        let (o, ev) = KadenaCmdInterp.parse(st, t);
        last = o;
        events.push(ev);
    }
    last
}

fn gas_and_transfer_document() -> Vec<JsonToken> {
    let mut gas_signer = Vec::new();
    let mut gas = Vec::new();
    cap_tokens(&mut gas, "coin.GAS", vec![JsonToken::BeginArray, JsonToken::EndArray]);
    signer_tokens(&mut gas_signer, "abc123", vec![gas]);
    let mut transfer_signer = Vec::new();
    let mut five = Vec::new();
    cap_tokens(&mut five, "coin.TRANSFER", vec![
        JsonToken::BeginArray, s("k:a"), JsonToken::ValueSeparator, s("k:b"), JsonToken::ValueSeparator,
        n("2"), JsonToken::ValueSeparator, s("extra"), JsonToken::ValueSeparator,
        JsonToken::BeginArray, n("1"), JsonToken::EndArray, JsonToken::EndArray,
    ]);
    signer_tokens(&mut transfer_signer, "def456", vec![five, transfer_cap()]);
    let mut third = Vec::new();
    signer_tokens(&mut third, "0789", vec![transfer_cap()]);
    document("(coin.transfer \"k:a\" \"k:b\" 1.5)", vec![gas_signer, transfer_signer, third])
}

#[test]
fn document_with_gas_and_transfers_is_fully_covered() {
    let toks = gas_and_transfer_document();
    let mut st = KadenaCmdInterp.init();
    let mut events = Vec::new();
    assert_eq!(feed(&mut st, &toks, &mut events), Outcome::Complete);
    assert_eq!(st.coverage, Some(CapabilityCoverage::Full));
    assert_eq!(st.code, Some(CommandData::Unknown));
    assert!(matches!(events.last(), Some(DocEvent::Finished { warning: false })));
    let finished = events.iter().filter(|e| matches!(e, DocEvent::Finished { .. })).count();
    assert_eq!(finished, 1);
    let caps = events.iter().filter(|e| matches!(e, DocEvent::Capability(_))).count();
    assert_eq!(caps, 4);
    assert!(events.iter().any(|e| matches!(e, DocEvent::ChainId(c) if c.as_slice() == b"0")));
    assert!(events.iter().any(|e| matches!(e, DocEvent::Network(c) if c.as_slice() == b"mainnet01")));
}

#[test]
fn document_split_in_two_batches_gives_the_same_result() {
    let toks = gas_and_transfer_document();
    let mut whole = KadenaCmdInterp.init();
    let mut ev1 = Vec::new();
    assert_eq!(feed(&mut whole, &toks, &mut ev1), Outcome::Complete);
    for cut in [1usize, 17, 40, toks.len() - 1] {
        let mut st = KadenaCmdInterp.init();
        let mut ev2 = Vec::new();
        assert_eq!(feed(&mut st, &toks[..cut], &mut ev2), Outcome::Continue);
        assert_eq!(feed(&mut st, &toks[cut..], &mut ev2), Outcome::Complete);
        assert_eq!(st.coverage, whole.coverage);
        assert_eq!(st.code, whole.code);
        assert_eq!(st.chain_id, whole.chain_id);
        assert_eq!(st.network_id, whole.network_id);
        assert_eq!(format!("{:?}", ev1), format!("{:?}", ev2));
    }
}

#[test]
fn unknown_code_and_capability_warns() {
    let mut sg = Vec::new();
    let mut cap = Vec::new();
    cap_tokens(&mut cap, "free.ANY", vec![JsonToken::BeginArray, JsonToken::EndArray]);
    signer_tokens(&mut sg, "abc", vec![cap]);
    let toks = document("(free.module.go)", vec![sg]);
    let mut st = KadenaCmdInterp.init();
    let mut events = Vec::new();
    assert_eq!(feed(&mut st, &toks, &mut events), Outcome::Complete);
    assert_eq!(st.coverage, Some(CapabilityCoverage::NotFull));
    assert!(matches!(events.last(), Some(DocEvent::Finished { warning: true })));
    assert_eq!(events.iter().filter(|e| matches!(e, DocEvent::Finished { .. })).count(), 1);
    assert_eq!(KadenaCmdInterp.parse(&mut st, &JsonToken::EndObject).0, Outcome::Reject);
}

#[test]
fn known_code_with_uncovered_signer_does_not_warn() {
    let mut sg = Vec::new();
    signer_tokens(&mut sg, "abc", vec![]);
    let toks = document("(coin.transfer-crosschain \"A\" \"B\" (read-keyset \"ks\") \"C\" 10.5)", vec![sg]);
    let mut st = KadenaCmdInterp.init();
    let mut events = Vec::new();
    assert_eq!(feed(&mut st, &toks, &mut events), Outcome::Complete);
    assert_eq!(st.coverage, Some(CapabilityCoverage::NotFull));
    assert_eq!(st.code, Some(CommandData::Known));
    assert!(matches!(events.last(), Some(DocEvent::Finished { warning: false })));
    assert!(events.iter().any(|e| matches!(e, DocEvent::Code(CommandData::Known, Some(_)))));
}

#[test]
fn gas_with_arguments_rejects_document() {
    let mut sg = Vec::new();
    let mut cap = Vec::new();
    cap_tokens(&mut cap, "coin.GAS", vec![JsonToken::BeginArray, s("x"), JsonToken::EndArray]);
    signer_tokens(&mut sg, "abc", vec![cap]);
    let toks = document("(x)", vec![sg]);
    let mut st = KadenaCmdInterp.init();
    let mut last = Outcome::Continue;
    for t in &toks {
        last = KadenaCmdInterp.parse(&mut st, t).0;
        if last != Outcome::Continue {
            break;
        }
    }
    assert_eq!(last, Outcome::Reject);
}

#[test]
fn unknown_member_rejects_document() {
    let mut st = KadenaCmdInterp.init();
    assert_eq!(KadenaCmdInterp.parse(&mut st, &JsonToken::BeginObject).0, Outcome::Continue);
    assert_eq!(KadenaCmdInterp.parse(&mut st, &s("bogus")).0, Outcome::Reject);
}

#[test]
fn path_bytes_are_read_little_endian() {
    let mut p = PathState::new();
    let bytes = [2u8, 44, 0, 0, 0x80, 0x72, 0x02, 0, 0x80];
    let mut last = Outcome::Continue;
    for b in bytes.iter() {
        assert_eq!(last, Outcome::Continue);
        last = p.parse_byte(*b);
    }
    assert_eq!(last, Outcome::Complete);
    assert_eq!(p.component_list(), &[0x8000_002cu32, 0x8000_0272][..]);
    let mut q = PathState::new();
    assert_eq!(q.parse_byte(11), Outcome::Reject);
    let mut z = PathState::new();
    assert_eq!(z.parse_byte(0), Outcome::Complete);
}

#[test]
fn new_operation_discards_old_state() {
    let mut s = ParsersState::NoState;
    {
        let a = get_get_address_state(&mut s);
        assert_eq!(a.path.parse_byte(1), Outcome::Continue);
        assert_eq!(a.path.parse_byte(7), Outcome::Continue);
    }
    {
        let a = get_get_address_state(&mut s);
        assert_eq!(a.path.pending, vec![7u8]);
    }
    {
        let sign = get_sign_state(&mut s);
        assert_eq!(sign.phase, SignPhase::Transaction);
        assert_eq!(sign.path.count, None);
        assert_eq!(sign.parse_token(&JsonToken::BeginObject).0, Outcome::Continue);
        assert_eq!(sign.parse_path_byte(1), Outcome::Reject);
    }
    {
        let a = get_get_address_state(&mut s);
        assert_eq!(a.path.count, None);
        assert!(a.path.pending.is_empty());
        assert_eq!(a.path.parse_byte(0), Outcome::Complete);
    }
    {
        let sign = get_sign_state(&mut s);
        assert_eq!(sign.parse_token(&s_tok("meta")).0, Outcome::Reject);
    }
    reset_parsers_state(&mut s);
    assert!(matches!(s, ParsersState::NoState));
}

fn s_tok(x: &str) -> JsonToken {
    s(x)
}

#[test]
fn sign_operation_moves_from_transaction_to_path() {
    let toks = gas_and_transfer_document();
    let mut st = ParsersState::NoState;
    let sign = get_sign_state(&mut st);
    let mut last = Outcome::Continue;
    for t in &toks {
        last = sign.parse_token(t).0;
    }
    assert_eq!(last, Outcome::Complete);
    assert_eq!(sign.phase, SignPhase::Path);
    assert_eq!(sign.parse_token(&JsonToken::BeginObject).0, Outcome::Reject);
    for b in [1u8, 1, 0, 0] {
        assert_eq!(sign.parse_path_byte(b), Outcome::Continue);
    }
    assert_eq!(sign.parse_path_byte(0), Outcome::Complete);
    assert_eq!(sign.phase, SignPhase::Done);
    assert_eq!(sign.path.component_list(), &[1u32][..]);
}

fn first_reject(toks: &[JsonToken]) -> Option<usize> {
    let mut st = KadenaCmdInterp.init();
    for (i, t) in toks.iter().enumerate() {
        let o = KadenaCmdInterp.parse(&mut st, t).0;
        if o == Outcome::Reject {
            return Some(i);
        }
    }
    None
}

#[test]
fn oversized_fields_reject_document() {
    let mut sg = Vec::new();
    let mut cap = Vec::new();
    cap_tokens(&mut cap, "coin.TRANSFERXY", vec![JsonToken::BeginArray, JsonToken::EndArray]);
    signer_tokens(&mut sg, "abc", vec![cap]);
    assert!(first_reject(&document("(x)", vec![sg])).is_some());

    let mut sg = Vec::new();
    signer_tokens(&mut sg, &"k".repeat(65), vec![transfer_cap()]);
    assert!(first_reject(&document("(x)", vec![sg])).is_some());
    let mut sg = Vec::new();
    signer_tokens(&mut sg, &"k".repeat(64), vec![transfer_cap()]);
    assert!(first_reject(&document("(x)", vec![sg])).is_none());

    let mut st = KadenaCmdInterp.init();
    let long_network = [
        JsonToken::BeginObject, s("networkId"), JsonToken::NameSeparator, s(&"n".repeat(33)),
    ];
    let mut last = Outcome::Continue;
    for t in long_network.iter() {
        last = KadenaCmdInterp.parse(&mut st, t).0;
    }
    assert_eq!(last, Outcome::Reject);
}
