use huawei_solar::registers::{
    catalog, device_status_to_string, find_by_address, pv1_voltage, rated_power, storage,
    BitField, Register, RegisterError, RegisterType, RegValue, Type, Value,
};

#[test]
fn convert_u16() {
    assert_eq!(u16::convert(&vec![u16::MIN]), Some(u16::MIN));
    assert_eq!(u16::convert(&vec![0u16]), Some(0u16));
    assert_eq!(u16::convert(&vec![1u16]), Some(1u16));
    assert_eq!(u16::convert(&vec![u16::MAX]), Some(u16::MAX));
}

#[test]
fn convert_u32() {
    assert_eq!(u32::convert(&vec![u16::MIN, u16::MIN]), Some(u32::MIN));
    assert_eq!(u32::convert(&vec![0u16, 0u16]), Some(0u32));
    assert_eq!(
        u32::convert(&vec![0x000Fu16, 0xF0FFu16]),
        Some(0x000FF0FFu32)
    );
    assert_eq!(u32::convert(&vec![u16::MAX, u16::MAX]), Some(u32::MAX));
}

#[test]
fn convert_i16() {
    assert_eq!(i16::convert(&vec![0u16]), Some(0i16));
    assert_eq!(i16::convert(&vec![1u16]), Some(1i16));
    assert_eq!(i16::convert(&vec![u16::MAX]), Some(-1i16));
}

#[test]
fn convert_i32() {
    assert_eq!(
        <i32 as RegisterType>::convert(&vec![0u16, 0u16]),
        Some(0i32)
    );
    assert_eq!(
        <i32 as RegisterType>::convert(&vec![0x000Fu16, 0xF0FFu16]),
        Some(0x000FF0FFi32)
    );
    assert_eq!(
        <i32 as RegisterType>::convert(&vec![u16::MAX, u16::MAX]),
        Some(-1i32)
    );
}

#[test]
fn convert_bf() {
    assert!(BitField::convert(&vec![0u16, 0u16]).unwrap().len() >= 32);
    assert_eq!(BitField::convert(&vec![0u16, 0u16]).unwrap().get(0), false);
    assert_eq!(BitField::convert(&vec![8u16, 0u16]).unwrap().get(12), true);
}

#[test]
fn convert_unsigned_boundaries() {
    assert_eq!(u16::convert(&vec![0xFFFFu16]), Some(65535u16));
    assert_eq!(u32::convert(&vec![0x0000u16, 0x8000u16]), Some(32768u32));
}

#[test]
fn convert_signed_boundaries() {
    assert_eq!(i16::convert(&vec![0xFFFFu16]), Some(-1i16));
    assert_eq!(
        <i32 as RegisterType>::convert(&vec![0xFFFFu16, 0xFFCDu16]),
        Some(-51i32)
    );
}

#[test]
fn convert_too_few_words() {
    assert_eq!(u16::convert(&vec![]), None);
    assert_eq!(i16::convert(&vec![]), None);
    assert_eq!(u32::convert(&vec![7u16]), None);
    assert_eq!(<i32 as RegisterType>::convert(&vec![7u16]), None);
}

#[test]
fn convert_text() {
    // 0x4142 packs big-endian to the bytes of "AB"; 0xC3A9 to a two-byte
    // UTF-8 character.
    let s = String::convert(&vec![0x4142u16]).unwrap();
    assert_eq!(s, "AB");
    let s = String::convert(&vec![0x4142u16, 0xC3A9u16]).unwrap();
    assert_eq!(s, "AB\u{e9}");
    // 0xFF is never valid in the positions it lands in here.
    assert!(String::convert(&vec![0xFFFFu16]).is_none());
}

#[test]
fn bit_field_msb_first() {
    // 0x8000 has only the most significant bit set: bit 0 of the field.
    let bf = BitField::convert(&vec![0x8000u16]).unwrap();
    assert_eq!(bf.len(), 16);
    assert_eq!(bf.get(0), true);
    for i in 1..16 {
        assert_eq!(bf.get(i), false);
    }
    // 0x0001 has only the least significant bit set: bit 15 of the field.
    let bf = BitField::convert(&vec![0x0001u16]).unwrap();
    assert_eq!(bf.get(15), true);
    for i in 0..15 {
        assert_eq!(bf.get(i), false);
    }
}

#[test]
fn type_convert_dispatch() {
    match Type::U16.convert(&vec![0xFFFFu16]) {
        Some(Value::U16(x)) => assert_eq!(x, 65535),
        _ => panic!("expected a 16-bit unsigned value"),
    }
    match Type::I16.convert(&vec![0xFFFFu16]) {
        Some(Value::I16(x)) => assert_eq!(x, -1),
        _ => panic!("expected a 16-bit signed value"),
    }
    match Type::U32.convert(&vec![0x0000u16, 0x8000u16]) {
        Some(Value::U32(x)) => assert_eq!(x, 32768),
        _ => panic!("expected a 32-bit unsigned value"),
    }
    match Type::I32.convert(&vec![0xFFFFu16, 0xFFCDu16]) {
        Some(Value::I32(x)) => assert_eq!(x, -51),
        _ => panic!("expected a 32-bit signed value"),
    }
    assert!(Type::U32.convert(&vec![1u16]).is_none());
}

#[test]
fn decode_checks_word_count() {
    let reg = rated_power(); // two words, 32-bit unsigned
    match reg.decode(&vec![0u16]) {
        Err(RegisterError::ValueConversion(_)) => {}
        _ => panic!("expected a conversion error on a word-count mismatch"),
    }
    match reg.decode(&vec![0x0000u16, 0x8000u16]) {
        Ok(Value::U32(x)) => assert_eq!(x, 32768),
        _ => panic!("expected a decoded value"),
    }
}

#[test]
fn reg_value_accessors() {
    let reg = pv1_voltage();
    let rv = RegValue {
        reg: &reg,
        val: Value::I16(-315),
    };
    assert_eq!(rv.to_i16().unwrap(), -315);
    assert!(rv.to_u16().is_err());
    assert!(rv.to_u32().is_err());
    assert!(rv.to_i32().is_err());
    let rv = RegValue {
        reg: &reg,
        val: Value::STR(String::from("SUN2000")),
    };
    assert_eq!(rv.to_string().unwrap(), "SUN2000");
}

#[test]
fn scaled_values_multiply_by_power_of_ten() {
    let reg = pv1_voltage(); // scale exponent 1
    let rv = RegValue {
        reg: &reg,
        val: Value::I16(-51),
    };
    assert_eq!(rv.to_scaled().unwrap(), -510);
    let reg = rated_power(); // scale exponent 3
    let rv = RegValue {
        reg: &reg,
        val: Value::U32(32768),
    };
    assert_eq!(rv.to_scaled().unwrap(), 32_768_000);
    let rv = RegValue {
        reg: &reg,
        val: Value::STR(String::from("text")),
    };
    match rv.to_scaled() {
        Err(RegisterError::ValueConversion(_)) => {}
        _ => panic!("expected a conversion error for text"),
    }
    let rv = RegValue {
        reg: &reg,
        val: Value::BF(BitField::convert(&vec![0u16]).unwrap()),
    };
    assert!(rv.to_scaled().is_err());
}

#[test]
fn status_tables() {
    assert_eq!(
        device_status_to_string(0x0000),
        Some("Standby: initializing")
    );
    assert_eq!(device_status_to_string(0x0200), Some("On-grid (Off-grid mode: running)"));
    assert_eq!(device_status_to_string(0xA000), Some("Standby: no irradiation"));
    assert_eq!(device_status_to_string(0x1234), None);
    assert_eq!(storage::running_status_to_string(0), Some("offline"));
    assert_eq!(storage::running_status_to_string(4), Some("sleep mode"));
    assert_eq!(storage::running_status_to_string(5), None);
}

#[test]
fn catalog_entries_are_well_formed() {
    // The startup configuration check can never reject a built-in entry.
    for reg in catalog() {
        assert!(reg.validate(), "catalog entry {} is ill-formed", reg.name);
    }
}

#[test]
fn catalog_lookup_by_address() {
    let reg: Register = find_by_address(32016).unwrap();
    assert_eq!(reg.name, "PV1_VOLTAGE");
    assert_eq!(reg.quantity, 1);
    assert_eq!(reg.gain, 1);
    assert!(find_by_address(1).is_none());
}
