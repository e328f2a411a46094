use wasmtime_ex::errors::Error;
use wasmtime_ex::values::{
    args_to_svals, args_ty_to_svals, decode_tag, decode_tags, default_svals, encode_ty,
    imports_term_to_valtype, marshal_reply, SVal, SValType, TypeTag,
};

#[test]
fn decode_accepts_the_four_scalar_tags() {
    assert_eq!(decode_tag(TypeTag::I32), Ok(SValType::I32));
    assert_eq!(decode_tag(TypeTag::I64), Ok(SValType::I64));
    assert_eq!(decode_tag(TypeTag::F32), Ok(SValType::F32));
    assert_eq!(decode_tag(TypeTag::F64), Ok(SValType::F64));
}

#[test]
fn decode_rejects_non_scalar_tags() {
    assert_eq!(decode_tag(TypeTag::V128), Err(Error::UnsupportedValueType));
    assert_eq!(decode_tag(TypeTag::ExternRef), Err(Error::UnsupportedValueType));
    assert_eq!(decode_tag(TypeTag::FuncRef), Err(Error::UnsupportedValueType));
}

#[test]
fn encode_then_decode_round_trips() {
    for t in [SValType::I32, SValType::I64, SValType::F32, SValType::F64] {
        assert_eq!(decode_tag(encode_ty(t)), Ok(t));
    }
}

#[test]
fn f32_bit_pattern_round_trips() {
    for x in [0.0f32, -0.0f32, 1.5f32, -123.625f32, f32::MIN, f32::MAX] {
        let bits = x.to_bits();
        let back = f32::from_bits(bits);
        assert_eq!(back.to_bits(), bits);
        assert_eq!(back, x);
    }
    // The two zeroes stay distinct as bit patterns.
    assert_ne!((0.0f32).to_bits(), (-0.0f32).to_bits());
    assert_eq!(f32::from_bits((-0.0f32).to_bits()).to_bits(), (-0.0f32).to_bits());
}

#[test]
fn f64_bit_pattern_round_trips() {
    for x in [0.0f64, -0.0f64, 1.5f64, 2.2250738585072014e-308] {
        let bits = x.to_bits();
        assert_eq!(f64::from_bits(bits), x);
        assert_eq!(f64::from_bits(bits).to_bits(), bits);
    }
}

#[test]
fn args_ty_to_svals_accepts_matching_args() {
    let args = vec![SVal::I32(1), SVal::I64(2), SVal::F32Bits(3), SVal::F64Bits(4)];
    let tys = vec![SValType::I32, SValType::I64, SValType::F32, SValType::F64];
    assert_eq!(args_ty_to_svals(&args, &tys), Ok(args.clone()));
}

#[test]
fn args_ty_to_svals_rejects_wrong_count() {
    let args = vec![SVal::I32(1)];
    let tys = vec![SValType::I32, SValType::I32];
    assert_eq!(args_ty_to_svals(&args, &tys), Err(Error::ArgumentCountMismatch));
}

#[test]
fn args_ty_to_svals_rejects_wrong_type() {
    let args = vec![SVal::I32(1), SVal::I32(2)];
    let tys = vec![SValType::I32, SValType::I64];
    assert_eq!(args_ty_to_svals(&args, &tys), Err(Error::TypeMismatch));
}

#[test]
fn marshal_reply_rejects_short_and_long_replies() {
    let tys = vec![SValType::I32];
    assert_eq!(marshal_reply(&tys, &vec![]), Err(Error::ArityMismatch));
    assert_eq!(
        marshal_reply(&tys, &vec![SVal::I32(1), SVal::I32(2)]),
        Err(Error::ArityMismatch)
    );
    assert_eq!(marshal_reply(&tys, &vec![SVal::I64(1)]), Err(Error::TypeMismatch));
    assert_eq!(marshal_reply(&tys, &vec![SVal::I32(7)]), Ok(vec![SVal::I32(7)]));
}

#[test]
fn args_to_svals_checks_tags_and_types() {
    let good = vec![(SVal::I32(5), TypeTag::I32), (SVal::F64Bits(9), TypeTag::F64)];
    assert_eq!(args_to_svals(&good), Ok(vec![SVal::I32(5), SVal::F64Bits(9)]));
    let bad_tag = vec![(SVal::I32(5), TypeTag::V128)];
    assert_eq!(args_to_svals(&bad_tag), Err(Error::UnsupportedValueType));
    let bad_ty = vec![(SVal::I32(5), TypeTag::I64)];
    assert_eq!(args_to_svals(&bad_ty), Err(Error::TypeMismatch));
}

#[test]
fn decode_tags_rejects_any_non_scalar() {
    assert_eq!(
        decode_tags(&vec![TypeTag::I32, TypeTag::F64]),
        Ok(vec![SValType::I32, SValType::F64])
    );
    assert_eq!(
        decode_tags(&vec![TypeTag::I32, TypeTag::FuncRef]),
        Err(Error::UnsupportedValueType)
    );
}

#[test]
fn default_svals_are_zero_of_each_type() {
    let tys = vec![SValType::I32, SValType::I64, SValType::F32, SValType::F64];
    assert_eq!(
        default_svals(&tys),
        vec![SVal::I32(0), SVal::I64(0), SVal::F32Bits(0), SVal::F64Bits(0)]
    );
}

#[test]
fn imports_term_to_valtype_translates_declarations() {
    let decls = vec![
        (7i64, vec![TypeTag::I32], vec![]),
        (3i64, vec![], vec![TypeTag::F64]),
    ];
    let out = imports_term_to_valtype(&decls).unwrap();
    assert_eq!(out.len(), 2);
    assert_eq!(out[0].id, 7);
    assert_eq!(out[0].params, vec![SValType::I32]);
    assert_eq!(out[0].results, vec![]);
    assert_eq!(out[1].id, 3);
    assert_eq!(out[1].params, vec![]);
    assert_eq!(out[1].results, vec![SValType::F64]);
}

#[test]
fn imports_term_to_valtype_rejects_non_scalar_declarations() {
    let decls = vec![(1i64, vec![TypeTag::ExternRef], vec![])];
    assert_eq!(imports_term_to_valtype(&decls), Err(Error::UnsupportedValueType));
}
