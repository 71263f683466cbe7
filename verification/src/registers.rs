//! Register descriptors and the decoding of raw register words into values.
//!
//! A register spans one or more 16-bit words. Decoding reinterprets those
//! words as an unsigned or signed integer (one or two words, big-endian), as
//! a bit field (words packed big-endian into a bit sequence, most significant
//! bit first), or as UTF-8 text (words packed big-endian into bytes).

use vstd::prelude::*;

pub mod storage;

verus! {

/// Error raised when raw register words cannot be converted to the requested
/// value shape.
#[derive(Debug)]
pub enum RegisterError {
    ValueConversion(String),
}

/// Access mode of a register: read-only, write-only, or read-write.
#[derive(Clone, Copy)]
pub enum Access {
    RO,
    WO,
    RW,
}

/// The decode rule a register uses to turn raw words into a typed value.
#[derive(Clone, Copy)]
pub enum Type {
    U16,
    U32,
    I16,
    I32,
    BF,
    STR,
}

/// The unsigned 32-bit value held by the first two words, big-endian.
pub open spec fn combined32(words: Seq<u16>) -> u32
    recommends
        words.len() >= 2,
{
    (words[0] * 0x10000 + words[1]) as u32
}

/// The two's-complement reinterpretation of a 16-bit word.
pub open spec fn as_signed16(w: u16) -> i16 {
    if w >= 0x8000 {
        (w - 0x10000) as i16
    } else {
        w as i16
    }
}

/// The two's-complement reinterpretation of a 32-bit value.
pub open spec fn as_signed32(c: u32) -> i32 {
    if c >= 0x8000_0000 {
        (c - 0x1_0000_0000) as i32
    } else {
        c as i32
    }
}

/// The words packed into bytes, big-endian: high byte before low byte.
pub open spec fn words_to_bytes(words: Seq<u16>) -> Seq<u8> {
    Seq::new(
        words.len() * 2,
        |i: int|
            if i % 2 == 0 {
                (words[i / 2] >> 8u16) as u8
            } else {
                (words[i / 2] & 0xffu16) as u8
            },
    )
}

/// Bit `i` of a word, counting from the most significant bit.
pub open spec fn spec_word_bit(w: u16, i: int) -> bool
    recommends
        0 <= i < 16,
{
    (w >> ((15 - i) as u16)) & 1u16 == 1u16
}

/// The words unpacked into a bit sequence, word by word, most significant
/// bit of each word first.
pub open spec fn spec_bits_of_words(words: Seq<u16>) -> Seq<bool> {
    Seq::new(words.len() * 16, |i: int| spec_word_bit(words[i / 16], i % 16))
}

/// What decoding the byte sequence as UTF-8 yields: the character sequence,
/// or nothing when the bytes are not valid UTF-8.
pub uninterp spec fn utf8_decode(bytes: Seq<u8>) -> Option<Seq<char>>;

/// Relies on `String::from_utf8` of std: decodes the byte sequence as UTF-8,
/// failing exactly when the bytes are not valid UTF-8.
#[verifier::external_body]
fn utf8_string(bytes: Vec<u8>) -> (r: Option<String>)
    ensures
        match r {
            Some(s) => utf8_decode(bytes@) == Some(s@),
            None => utf8_decode(bytes@) is None,
        },
{
    String::from_utf8(bytes).ok()
}

/// A bit field decoded from register words: an indexable bit sequence.
///
/// Bits are ordered word by word, most significant bit of each word first,
/// matching a big-endian packing of the words into bytes.
pub struct BitField {
    bits: Vec<bool>,
}

impl View for BitField {
    type V = Seq<bool>;

    closed spec fn view(&self) -> Seq<bool> {
        self.bits@
    }
}

impl BitField {
    /// The number of bits: sixteen per word.
    pub fn len(&self) -> (n: usize)
        ensures
            n == self@.len(),
    {
        self.bits.len()
    }

    /// The bit at position `i`, counting from the most significant bit of
    /// the first word.
    pub fn get(&self, i: usize) -> (b: bool)
        requires
            i < self@.len(),
        ensures
            b == self@[i as int],
    {
        self.bits[i]
    }
}

/// Pure conversions from raw register words, one implementation per value
/// shape a register can decode to.
pub trait RegisterType: Sized {
    /// Whether the words convert to a value of this shape at all.
    spec fn convert_defined(words: Seq<u16>) -> bool;

    /// Whether `self` is the value that the words convert to.
    spec fn is_conversion_of(&self, words: Seq<u16>) -> bool;

    /// Convert raw words, returning the converted value exactly when the
    /// conversion is defined.
    fn convert(words: &[u16]) -> (r: Option<Self>)
        ensures
            (r is Some) == Self::convert_defined(words@),
            match r {
                Some(v) => v.is_conversion_of(words@),
                None => true,
            },
    ;
}

impl RegisterType for u16 {
    open spec fn convert_defined(words: Seq<u16>) -> bool {
        words.len() >= 1
    }

    open spec fn is_conversion_of(&self, words: Seq<u16>) -> bool {
        words.len() >= 1 && *self == words[0]
    }

    fn convert(words: &[u16]) -> (r: Option<u16>) {
        if words.len() >= 1 {
            Some(words[0])
        } else {
            None
        }
    }
}

impl RegisterType for u32 {
    open spec fn convert_defined(words: Seq<u16>) -> bool {
        words.len() >= 2
    }

    open spec fn is_conversion_of(&self, words: Seq<u16>) -> bool {
        words.len() >= 2 && *self == combined32(words)
    }

    fn convert(words: &[u16]) -> (r: Option<u32>) {
        if words.len() >= 2 {
            let w0 = words[0];
            let w1 = words[1];
            let c: u32 = ((w0 as u32) << 16u32) | (w1 as u32);
            proof {
                assert(((w0 as u32) << 16u32) | (w1 as u32) == w0 * 0x10000 + w1) by (bit_vector);
            }
            Some(c)
        } else {
            None
        }
    }
}

impl RegisterType for i16 {
    open spec fn convert_defined(words: Seq<u16>) -> bool {
        words.len() >= 1
    }

    open spec fn is_conversion_of(&self, words: Seq<u16>) -> bool {
        words.len() >= 1 && *self == as_signed16(words[0])
    }

    fn convert(words: &[u16]) -> (r: Option<i16>) {
        if words.len() >= 1 {
            let w = words[0];
            let v = w as i16;
            proof {
                assert(w >= 0x8000 ==> w as i16 == w - 0x10000) by (bit_vector);
                assert(w < 0x8000 ==> w as i16 == w) by (bit_vector);
            }
            Some(v)
        } else {
            None
        }
    }
}

impl RegisterType for i32 {
    open spec fn convert_defined(words: Seq<u16>) -> bool {
        words.len() >= 2
    }

    open spec fn is_conversion_of(&self, words: Seq<u16>) -> bool {
        words.len() >= 2 && *self == as_signed32(combined32(words))
    }

    fn convert(words: &[u16]) -> (r: Option<i32>) {
        if words.len() >= 2 {
            let w0 = words[0];
            let w1 = words[1];
            let c: u32 = ((w0 as u32) << 16u32) | (w1 as u32);
            proof {
                assert(((w0 as u32) << 16u32) | (w1 as u32) == w0 * 0x10000 + w1) by (bit_vector);
            }
            let v = c as i32;
            proof {
                assert(c >= 0x8000_0000 ==> c as i32 == c - 0x1_0000_0000) by (bit_vector);
                assert(c < 0x8000_0000 ==> c as i32 == c) by (bit_vector);
            }
            Some(v)
        } else {
            None
        }
    }
}

impl RegisterType for String {
    open spec fn convert_defined(words: Seq<u16>) -> bool {
        utf8_decode(words_to_bytes(words)) is Some
    }

    open spec fn is_conversion_of(&self, words: Seq<u16>) -> bool {
        utf8_decode(words_to_bytes(words)) == Some(self@)
    }

    fn convert(words: &[u16]) -> (r: Option<String>) {
        let bytes = pack_words(words);
        utf8_string(bytes)
    }
}

impl RegisterType for BitField {
    open spec fn convert_defined(words: Seq<u16>) -> bool {
        true
    }

    open spec fn is_conversion_of(&self, words: Seq<u16>) -> bool {
        self@ == spec_bits_of_words(words)
    }

    fn convert(words: &[u16]) -> (r: Option<BitField>) {
        let mut bits: Vec<bool> = Vec::new();
        let mut k: usize = 0;
        while k < words.len()
            invariant
                k <= words@.len(),
                bits@.len() == k * 16,
                forall|i: int|
                    0 <= i < bits@.len() ==> bits@[i] == spec_word_bit(
                        words@[i / 16],
                        i % 16,
                    ),
            decreases words@.len() - k,
        {
            let w = words[k];
            let mut j: usize = 0;
            while j < 16
                invariant
                    j <= 16,
                    k < words@.len(),
                    w == words@[k as int],
                    bits@.len() == k * 16 + j,
                    forall|i: int|
                        0 <= i < bits@.len() ==> bits@[i] == spec_word_bit(
                            words@[i / 16],
                            i % 16,
                        ),
                decreases 16 - j,
            {
                let shift: u16 = 15 - (j as u16);
                let b = (w >> shift) & 1 == 1;
                proof {
                    let i = bits@.len() as int;
                    assert(i == k * 16 + j);
                    assert(i / 16 == k && i % 16 == j) by (nonlinear_arith)
                        requires
                            i == k * 16 + j,
                            0 <= j < 16,
                            0 <= k,
                    ;
                    assert(b == spec_word_bit(words@[k as int], j as int));
                }
                bits.push(b);
                j = j + 1;
            }
            k = k + 1;
        }
        proof {
            assert(bits@ =~= spec_bits_of_words(words@));
        }
        Some(BitField { bits })
    }
}

/// A decoded register value.
pub enum Value {
    U16(u16),
    U32(u32),
    I16(i16),
    I32(i32),
    BF(BitField),
    STR(String),
}

/// Whether the words convert to a value under the given decode rule.
pub open spec fn convertible(typ: Type, words: Seq<u16>) -> bool {
    match typ {
        Type::U16 => words.len() >= 1,
        Type::I16 => words.len() >= 1,
        Type::U32 => words.len() >= 2,
        Type::I32 => words.len() >= 2,
        Type::BF => true,
        Type::STR => utf8_decode(words_to_bytes(words)) is Some,
    }
}

/// Whether `v` is the value the words convert to under the given decode rule.
pub open spec fn value_is_conversion(v: Value, typ: Type, words: Seq<u16>) -> bool {
    match (typ, v) {
        (Type::U16, Value::U16(x)) => words.len() >= 1 && x == words[0],
        (Type::U32, Value::U32(x)) => words.len() >= 2 && x == combined32(words),
        (Type::I16, Value::I16(x)) => words.len() >= 1 && x == as_signed16(words[0]),
        (Type::I32, Value::I32(x)) => words.len() >= 2 && x == as_signed32(combined32(words)),
        (Type::BF, Value::BF(b)) => b@ == spec_bits_of_words(words),
        (Type::STR, Value::STR(s)) => utf8_decode(words_to_bytes(words)) == Some(s@),
        _ => false,
    }
}

impl Type {
    /// Convert raw words under this decode rule, returning a value exactly
    /// when the words convert.
    pub fn convert(&self, val: &Vec<u16>) -> (r: Option<Value>)
        ensures
            (r is Some) == convertible(*self, val@),
            match r {
                Some(v) => value_is_conversion(v, *self, val@),
                None => true,
            },
    {
        match self {
            Type::U16 => match u16::convert(val.as_slice()) {
                Some(v) => Some(Value::U16(v)),
                None => None,
            },
            Type::U32 => match u32::convert(val.as_slice()) {
                Some(v) => Some(Value::U32(v)),
                None => None,
            },
            Type::I16 => match i16::convert(val.as_slice()) {
                Some(v) => Some(Value::I16(v)),
                None => None,
            },
            Type::I32 => match i32::convert(val.as_slice()) {
                Some(v) => Some(Value::I32(v)),
                None => None,
            },
            Type::BF => match BitField::convert(val.as_slice()) {
                Some(v) => Some(Value::BF(v)),
                None => None,
            },
            Type::STR => match String::convert(val.as_slice()) {
                Some(v) => Some(Value::STR(v)),
                None => None,
            },
        }
    }
}

/// A register descriptor: where the register lives in the device's address
/// space, how many words it spans, and how its raw words decode.
#[derive(Clone, Copy)]
pub struct Register {
    pub address: u16,
    pub quantity: u8,
    pub gain: u8,
    pub unit: Option<&'static str>,
    pub access: Access,
    pub typ: Type,
    pub name: &'static str,
}

impl Register {
    /// A well-formed descriptor: it spans one to fifteen words, its span
    /// stays inside the 16-bit address space, and its scale exponent is
    /// small enough that every scaled value fits an `i64`.
    pub open spec fn wf(self) -> bool {
        &&& 1 <= self.quantity <= 15
        &&& self.gain <= 9
        &&& self.address + self.quantity <= 0xffff
    }

    /// Check well-formedness of the descriptor, as a configuration check at
    /// process start: an ill-formed entry is rejected before any polling.
    pub fn validate(&self) -> (b: bool)
        ensures
            b == self.wf(),
    {
        1 <= self.quantity && self.quantity <= 15 && self.gain <= 9 && self.address as u32
            + self.quantity as u32 <= 0xffff
    }

    /// Decode raw words read for this register: an error when the word count
    /// does not match the descriptor, or when the words do not convert.
    pub fn decode(&self, words: &Vec<u16>) -> (r: Result<Value, RegisterError>)
        ensures
            (r is Ok) == (words@.len() == self.quantity && convertible(self.typ, words@)),
            match r {
                Ok(v) => value_is_conversion(v, self.typ, words@),
                Err(_) => true,
            },
    {
        if words.len() != self.quantity as usize {
            return Err(
                RegisterError::ValueConversion(
                    "word count does not match the register".to_owned(),
                ),
            );
        }
        match self.typ.convert(words) {
            Some(v) => Ok(v),
            None => Err(RegisterError::ValueConversion("raw words do not convert".to_owned())),
        }
    }
}

/// The raw numeric reading of a value: bit fields and text have none.
pub open spec fn numeric_value(v: Value) -> Option<int> {
    match v {
        Value::U16(x) => Some(x as int),
        Value::U32(x) => Some(x as int),
        Value::I16(x) => Some(x as int),
        Value::I32(x) => Some(x as int),
        Value::BF(_) => None,
        Value::STR(_) => None,
    }
}

/// Ten to the power `e`.
pub open spec fn pow10(e: nat) -> int
    decreases e,
{
    if e == 0 {
        1
    } else {
        10 * pow10((e - 1) as nat)
    }
}

proof fn lemma_pow10_pos(e: nat)
    ensures
        pow10(e) >= 1,
    decreases e,
{
    if e > 0 {
        lemma_pow10_pos((e - 1) as nat);
    }
}

proof fn lemma_pow10_mono(a: nat, b: nat)
    requires
        a <= b,
    ensures
        pow10(a) <= pow10(b),
    decreases b,
{
    if a < b {
        lemma_pow10_mono(a, (b - 1) as nat);
        lemma_pow10_pos((b - 1) as nat);
        assert(pow10(b) == 10 * pow10((b - 1) as nat));
    }
}

proof fn lemma_pow10_bounds(e: nat)
    requires
        e <= 9,
    ensures
        1 <= pow10(e) <= 1_000_000_000,
{
    lemma_pow10_pos(e);
    lemma_pow10_mono(e, 9);
    reveal_with_fuel(pow10, 10);
    assert(pow10(9) == 1_000_000_000);
}

/// Ten to the power `e`, computed.
fn pow10_exec(e: u8) -> (r: i64)
    requires
        e <= 9,
    ensures
        r == pow10(e as nat),
{
    let mut r: i64 = 1;
    let mut i: u8 = 0;
    while i < e
        invariant
            i <= e <= 9,
            r == pow10(i as nat),
        decreases e - i,
    {
        proof {
            lemma_pow10_bounds(i as nat);
        }
        r = r * 10;
        i = i + 1;
    }
    r
}

/// A decoded value paired with the descriptor it was read from.
pub struct RegValue<'a> {
    pub reg: &'a Register,
    pub val: Value,
}

impl<'a> RegValue<'a> {
    /// The scaled measurement as an exact integer: the raw numeric reading
    /// times ten to the register's scale exponent. The scale multiplies the
    /// raw reading — the catalog's stated convention, kept as given even
    /// though fixed-point sensors more often divide. Bit fields and text
    /// have no scaled form, which is a conversion error. The exponent bound
    /// comes from `i64`: larger exponents could not be represented exactly.
    pub fn to_scaled(&self) -> (r: Result<i64, RegisterError>)
        requires
            self.reg.gain <= 9,
        ensures
            (r is Ok) == (numeric_value(self.val) is Some),
            match r {
                Ok(x) => numeric_value(self.val) matches Some(n) && x == n * pow10(
                    self.reg.gain as nat,
                ),
                Err(_) => true,
            },
    {
        let raw: i64 = match &self.val {
            Value::U16(v) => *v as i64,
            Value::U32(v) => *v as i64,
            Value::I16(v) => *v as i64,
            Value::I32(v) => *v as i64,
            Value::BF(_) => {
                return Err(
                    RegisterError::ValueConversion("Cannot convert bit field to float".to_owned()),
                );
            },
            Value::STR(_) => {
                return Err(
                    RegisterError::ValueConversion("Cannot convert string to float".to_owned()),
                );
            },
        };
        let p = pow10_exec(self.reg.gain);
        proof {
            lemma_pow10_bounds(self.reg.gain as nat);
            assert(raw * p <= 4_294_967_295i64 * 1_000_000_000 && raw * p >= (-4_294_967_295i64)
                * 1_000_000_000) by (nonlinear_arith)
                requires
                    -4_294_967_295 <= raw <= 4_294_967_295,
                    1 <= p <= 1_000_000_000,
            ;
        }
        Ok(raw * p)
    }

    /// The text of a decoded text register; any other value shape is a
    /// conversion error.
    pub fn to_string(self) -> (r: Result<String, RegisterError>)
        ensures
            match self.val {
                Value::STR(v) => r == Ok::<String, RegisterError>(v),
                _ => r is Err,
            },
    {
        match self.val {
            Value::STR(v) => Ok(v),
            _ => Err(RegisterError::ValueConversion("Cannot convert value to String".to_owned())),
        }
    }

    /// The reading of a 32-bit signed register; any other value shape is a
    /// conversion error.
    pub fn to_i32(&self) -> (r: Result<i32, RegisterError>)
        ensures
            match self.val {
                Value::I32(v) => r == Ok::<i32, RegisterError>(v),
                _ => r is Err,
            },
    {
        match &self.val {
            Value::I32(v) => Ok(*v),
            _ => Err(RegisterError::ValueConversion("Cannot convert value to i32".to_owned())),
        }
    }

    /// The reading of a 32-bit unsigned register; any other value shape is a
    /// conversion error.
    pub fn to_u32(&self) -> (r: Result<u32, RegisterError>)
        ensures
            match self.val {
                Value::U32(v) => r == Ok::<u32, RegisterError>(v),
                _ => r is Err,
            },
    {
        match &self.val {
            Value::U32(v) => Ok(*v),
            _ => Err(RegisterError::ValueConversion("Cannot convert value to u32".to_owned())),
        }
    }

    /// The reading of a 16-bit unsigned register; any other value shape is a
    /// conversion error.
    pub fn to_u16(&self) -> (r: Result<u16, RegisterError>)
        ensures
            match self.val {
                Value::U16(v) => r == Ok::<u16, RegisterError>(v),
                _ => r is Err,
            },
    {
        match &self.val {
            Value::U16(v) => Ok(*v),
            _ => Err(RegisterError::ValueConversion("Cannot convert value to u16".to_owned())),
        }
    }

    /// The reading of a 16-bit signed register; any other value shape is a
    /// conversion error.
    pub fn to_i16(&self) -> (r: Result<i16, RegisterError>)
        ensures
            match self.val {
                Value::I16(v) => r == Ok::<i16, RegisterError>(v),
                _ => r is Err,
            },
    {
        match &self.val {
            Value::I16(v) => Ok(*v),
            _ => Err(RegisterError::ValueConversion("Cannot convert value to i16".to_owned())),
        }
    }
}

/// Pack words into bytes, big-endian: high byte before low byte.
pub fn pack_words(words: &[u16]) -> (r: Vec<u8>)
    ensures
        r@ == words_to_bytes(words@),
{
    let mut bytes: Vec<u8> = Vec::new();
    let mut k: usize = 0;
    while k < words.len()
        invariant
            k <= words@.len(),
            bytes@.len() == k * 2,
            forall|i: int|
                0 <= i < bytes@.len() ==> bytes@[i] == words_to_bytes(words@)[i],
        decreases words@.len() - k,
    {
        let w = words[k];
        let hi = (w >> 8u16) as u8;
        let lo = (w & 0xffu16) as u8;
        proof {
            let i = bytes@.len() as int;
            assert(i == k * 2);
            assert(i / 2 == k && i % 2 == 0 && (i + 1) / 2 == k && (i + 1) % 2 == 1)
                by (nonlinear_arith)
                requires
                    i == k * 2,
                    0 <= k,
            ;
        }
        bytes.push(hi);
        bytes.push(lo);
        k = k + 1;
    }
    proof {
        assert(bytes@ =~= words_to_bytes(words@));
    }
    bytes
}


/// What each device-status code means; codes outside the table have no
/// reading.
pub open spec fn spec_device_status(status: u16) -> Option<Seq<char>> {
    match status {
        0x0000u16 => Some("Standby: initializing"@),
        0x0001u16 => Some("Standby: detecting insulation resistance"@),
        0x0002u16 => Some("Standby: detecting irradiation"@),
        0x0003u16 => Some("Standby: drid detecting"@),
        0x0100u16 => Some("Starting"@),
        0x0200u16 => Some("On-grid (Off-grid mode: running)"@),
        0x0201u16 => Some(
            "Grid connection: power limited (Off-grid mode: running: power limited)"@,
        ),
        0x0202u16 => Some(
            "Grid connection: self- derating (Off-grid mode: running: self-derating)"@,
        ),
        0x0300u16 => Some("Shutdown: fault"@),
        0x0301u16 => Some("Shutdown: command"@),
        0x0302u16 => Some("Shutdown: OVGR"@),
        0x0303u16 => Some("Shutdown: communication disconnected"@),
        0x0304u16 => Some("Shutdown: power limited"@),
        0x0305u16 => Some("Shutdown: manual startup required"@),
        0x0306u16 => Some("Shutdown: DC switches disconnected"@),
        0x0307u16 => Some("Shutdown: rapid cutoff"@),
        0x0308u16 => Some("Shutdown: input underpower"@),
        0x0401u16 => Some("Grid scheduling: cos\u{3c6}-P curve"@),
        0x0402u16 => Some("Grid scheduling: Q-U curve"@),
        0x0403u16 => Some("Grid scheduling: PF-U curve"@),
        0x0404u16 => Some("Grid scheduling: dry contact"@),
        0x0405u16 => Some("Grid scheduling: Q-P curve"@),
        0x0500u16 => Some("Spot-check ready"@),
        0x0501u16 => Some("Spot-checking"@),
        0x0600u16 => Some("Inspecting"@),
        0x0700u16 => Some("AFCI self check"@),
        0x0800u16 => Some("I-V scanning"@),
        0x0900u16 => Some("DC input detection"@),
        0x0A00u16 => Some("Running: off-grid charging"@),
        0xA000u16 => Some("Standby: no irradiation"@),
        _ => None,
    }
}

/// The text of a device-status code, exactly as the table gives it.
pub fn device_status_to_string(status: u16) -> (r: Option<&'static str>)
    ensures
        match r {
            Some(s) => spec_device_status(status) == Some(s@),
            None => spec_device_status(status) is None,
        },
{
    match status {
        0x0000 => Some("Standby: initializing"),
        0x0001 => Some("Standby: detecting insulation resistance"),
        0x0002 => Some("Standby: detecting irradiation"),
        0x0003 => Some("Standby: drid detecting"),
        0x0100 => Some("Starting"),
        0x0200 => Some("On-grid (Off-grid mode: running)"),
        0x0201 => Some("Grid connection: power limited (Off-grid mode: running: power limited)"),
        0x0202 => Some("Grid connection: self- derating (Off-grid mode: running: self-derating)"),
        0x0300 => Some("Shutdown: fault"),
        0x0301 => Some("Shutdown: command"),
        0x0302 => Some("Shutdown: OVGR"),
        0x0303 => Some("Shutdown: communication disconnected"),
        0x0304 => Some("Shutdown: power limited"),
        0x0305 => Some("Shutdown: manual startup required"),
        0x0306 => Some("Shutdown: DC switches disconnected"),
        0x0307 => Some("Shutdown: rapid cutoff"),
        0x0308 => Some("Shutdown: input underpower"),
        0x0401 => Some("Grid scheduling: cos\u{3c6}-P curve"),
        0x0402 => Some("Grid scheduling: Q-U curve"),
        0x0403 => Some("Grid scheduling: PF-U curve"),
        0x0404 => Some("Grid scheduling: dry contact"),
        0x0405 => Some("Grid scheduling: Q-P curve"),
        0x0500 => Some("Spot-check ready"),
        0x0501 => Some("Spot-checking"),
        0x0600 => Some("Inspecting"),
        0x0700 => Some("AFCI self check"),
        0x0800 => Some("I-V scanning"),
        0x0900 => Some("DC input detection"),
        0x0A00 => Some("Running: off-grid charging"),
        0xA000 => Some("Standby: no irradiation"),
        _ => None,
    }
}

#[verifier::allow_in_spec]
pub fn model() -> Register
    returns
        (Register {
                address: 30000,
                quantity: 15,
                gain: 0,
                unit: None,
                access: Access::RO,
                typ: Type::STR,
                name: "MODEL",
            }),
{
    Register {
            address: 30000,
            quantity: 15,
            gain: 0,
            unit: None,
            access: Access::RO,
            typ: Type::STR,
            name: "MODEL",
        }
}

#[verifier::allow_in_spec]
pub fn sn() -> Register
    returns
        (Register {
                address: 30015,
                quantity: 10,
                gain: 0,
                unit: None,
                access: Access::RO,
                typ: Type::STR,
                name: "SN",
            }),
{
    Register {
            address: 30015,
            quantity: 10,
            gain: 0,
            unit: None,
            access: Access::RO,
            typ: Type::STR,
            name: "SN",
        }
}

#[verifier::allow_in_spec]
pub fn pn() -> Register
    returns
        (Register {
                address: 30025,
                quantity: 10,
                gain: 0,
                unit: None,
                access: Access::RO,
                typ: Type::STR,
                name: "PN",
            }),
{
    Register {
            address: 30025,
            quantity: 10,
            gain: 0,
            unit: None,
            access: Access::RO,
            typ: Type::STR,
            name: "PN",
        }
}

#[verifier::allow_in_spec]
pub fn model_id() -> Register
    returns
        (Register {
                address: 30070,
                quantity: 1,
                gain: 0,
                unit: None,
                access: Access::RO,
                typ: Type::U16,
                name: "MODEL_ID",
            }),
{
    Register {
            address: 30070,
            quantity: 1,
            gain: 0,
            unit: None,
            access: Access::RO,
            typ: Type::U16,
            name: "MODEL_ID",
        }
}

#[verifier::allow_in_spec]
pub fn number_of_pv_strings() -> Register
    returns
        (Register {
                address: 30071,
                quantity: 1,
                gain: 0,
                unit: None,
                access: Access::RO,
                typ: Type::U16,
                name: "NUMBER_OF_PV_STRINGS",
            }),
{
    Register {
            address: 30071,
            quantity: 1,
            gain: 0,
            unit: None,
            access: Access::RO,
            typ: Type::U16,
            name: "NUMBER_OF_PV_STRINGS",
        }
}

#[verifier::allow_in_spec]
pub fn number_of_mpp_trackers() -> Register
    returns
        (Register {
                address: 30072,
                quantity: 1,
                gain: 0,
                unit: None,
                access: Access::RO,
                typ: Type::U16,
                name: "NUMBER_OF_MPP_TRACKERS",
            }),
{
    Register {
            address: 30072,
            quantity: 1,
            gain: 0,
            unit: None,
            access: Access::RO,
            typ: Type::U16,
            name: "NUMBER_OF_MPP_TRACKERS",
        }
}

#[verifier::allow_in_spec]
pub fn rated_power() -> Register
    returns
        (Register {
                address: 30073,
                quantity: 2,
                gain: 3,
                unit: Some("kW"),
                access: Access::RO,
                typ: Type::U32,
                name: "RATED_POWER",
            }),
{
    Register {
            address: 30073,
            quantity: 2,
            gain: 3,
            unit: Some("kW"),
            access: Access::RO,
            typ: Type::U32,
            name: "RATED_POWER",
        }
}

#[verifier::allow_in_spec]
pub fn maximum_active_power() -> Register
    returns
        (Register {
                address: 30075,
                quantity: 2,
                gain: 3,
                unit: Some("kW"),
                access: Access::RO,
                typ: Type::U32,
                name: "MAXIMUM_ACTIVE_POWER",
            }),
{
    Register {
            address: 30075,
            quantity: 2,
            gain: 3,
            unit: Some("kW"),
            access: Access::RO,
            typ: Type::U32,
            name: "MAXIMUM_ACTIVE_POWER",
        }
}

#[verifier::allow_in_spec]
pub fn maximum_apparent_power() -> Register
    returns
        (Register {
                address: 30077,
                quantity: 2,
                gain: 3,
                unit: Some("kVA"),
                access: Access::RO,
                typ: Type::U32,
                name: "MAXIMUM_APPARENT_POWER",
            }),
{
    Register {
            address: 30077,
            quantity: 2,
            gain: 3,
            unit: Some("kVA"),
            access: Access::RO,
            typ: Type::U32,
            name: "MAXIMUM_APPARENT_POWER",
        }
}

#[verifier::allow_in_spec]
pub fn maximum_reactive_power_to_grid() -> Register
    returns
        (Register {
                address: 30079,
                quantity: 2,
                gain: 3,
                unit: Some("kVar"),
                access: Access::RO,
                typ: Type::I32,
                name: "MAXIMUM_REACTIVE_POWER_TO_GRID",
            }),
{
    Register {
            address: 30079,
            quantity: 2,
            gain: 3,
            unit: Some("kVar"),
            access: Access::RO,
            typ: Type::I32,
            name: "MAXIMUM_REACTIVE_POWER_TO_GRID",
        }
}

#[verifier::allow_in_spec]
pub fn maximum_apparent_power_from_grid() -> Register
    returns
        (Register {
                address: 30081,
                quantity: 2,
                gain: 3,
                unit: Some("kVar"),
                access: Access::RO,
                typ: Type::I32,
                name: "MAXIMUM_APPARENT_POWER_FROM_GRID",
            }),
{
    Register {
            address: 30081,
            quantity: 2,
            gain: 3,
            unit: Some("kVar"),
            access: Access::RO,
            typ: Type::I32,
            name: "MAXIMUM_APPARENT_POWER_FROM_GRID",
        }
}

#[verifier::allow_in_spec]
pub fn state_1() -> Register
    returns
        (Register {
                address: 32000,
                quantity: 1,
                gain: 0,
                unit: None,
                access: Access::RO,
                typ: Type::BF,
                name: "STATE_1",
            }),
{
    Register {
            address: 32000,
            quantity: 1,
            gain: 0,
            unit: None,
            access: Access::RO,
            typ: Type::BF,
            name: "STATE_1",
        }
}

#[verifier::allow_in_spec]
pub fn state_2() -> Register
    returns
        (Register {
                address: 32002,
                quantity: 1,
                gain: 0,
                unit: None,
                access: Access::RO,
                typ: Type::BF,
                name: "STATE_2",
            }),
{
    Register {
            address: 32002,
            quantity: 1,
            gain: 0,
            unit: None,
            access: Access::RO,
            typ: Type::BF,
            name: "STATE_2",
        }
}

#[verifier::allow_in_spec]
pub fn state_3() -> Register
    returns
        (Register {
                address: 32003,
                quantity: 2,
                gain: 0,
                unit: None,
                access: Access::RO,
                typ: Type::BF,
                name: "STATE_3",
            }),
{
    Register {
            address: 32003,
            quantity: 2,
            gain: 0,
            unit: None,
            access: Access::RO,
            typ: Type::BF,
            name: "STATE_3",
        }
}

#[verifier::allow_in_spec]
pub fn alarm_1() -> Register
    returns
        (Register {
                address: 32008,
                quantity: 1,
                gain: 0,
                unit: None,
                access: Access::RO,
                typ: Type::BF,
                name: "ALARM_1",
            }),
{
    Register {
            address: 32008,
            quantity: 1,
            gain: 0,
            unit: None,
            access: Access::RO,
            typ: Type::BF,
            name: "ALARM_1",
        }
}

#[verifier::allow_in_spec]
pub fn alarm_2() -> Register
    returns
        (Register {
                address: 32009,
                quantity: 1,
                gain: 0,
                unit: None,
                access: Access::RO,
                typ: Type::BF,
                name: "ALARM_2",
            }),
{
    Register {
            address: 32009,
            quantity: 1,
            gain: 0,
            unit: None,
            access: Access::RO,
            typ: Type::BF,
            name: "ALARM_2",
        }
}

#[verifier::allow_in_spec]
pub fn alarm_3() -> Register
    returns
        (Register {
                address: 32010,
                quantity: 1,
                gain: 0,
                unit: None,
                access: Access::RO,
                typ: Type::BF,
                name: "ALARM_3",
            }),
{
    Register {
            address: 32010,
            quantity: 1,
            gain: 0,
            unit: None,
            access: Access::RO,
            typ: Type::BF,
            name: "ALARM_3",
        }
}

#[verifier::allow_in_spec]
pub fn pv1_voltage() -> Register
    returns
        (Register {
                address: 32016,
                quantity: 1,
                gain: 1,
                unit: Some("V"),
                access: Access::RO,
                typ: Type::I16,
                name: "PV1_VOLTAGE",
            }),
{
    Register {
            address: 32016,
            quantity: 1,
            gain: 1,
            unit: Some("V"),
            access: Access::RO,
            typ: Type::I16,
            name: "PV1_VOLTAGE",
        }
}

#[verifier::allow_in_spec]
pub fn pv1_current() -> Register
    returns
        (Register {
                address: 32017,
                quantity: 1,
                gain: 2,
                unit: Some("A"),
                access: Access::RO,
                typ: Type::I16,
                name: "PV1_CURRENT",
            }),
{
    Register {
            address: 32017,
            quantity: 1,
            gain: 2,
            unit: Some("A"),
            access: Access::RO,
            typ: Type::I16,
            name: "PV1_CURRENT",
        }
}

#[verifier::allow_in_spec]
pub fn pv2_voltage() -> Register
    returns
        (Register {
                address: 32018,
                quantity: 1,
                gain: 1,
                unit: Some("V"),
                access: Access::RO,
                typ: Type::I16,
                name: "PV2_VOLTAGE",
            }),
{
    Register {
            address: 32018,
            quantity: 1,
            gain: 1,
            unit: Some("V"),
            access: Access::RO,
            typ: Type::I16,
            name: "PV2_VOLTAGE",
        }
}

#[verifier::allow_in_spec]
pub fn pv2_current() -> Register
    returns
        (Register {
                address: 32019,
                quantity: 1,
                gain: 2,
                unit: Some("A"),
                access: Access::RO,
                typ: Type::I16,
                name: "PV2_CURRENT",
            }),
{
    Register {
            address: 32019,
            quantity: 1,
            gain: 2,
            unit: Some("A"),
            access: Access::RO,
            typ: Type::I16,
            name: "PV2_CURRENT",
        }
}

#[verifier::allow_in_spec]
pub fn pv3_voltage() -> Register
    returns
        (Register {
                address: 32020,
                quantity: 1,
                gain: 1,
                unit: Some("V"),
                access: Access::RO,
                typ: Type::I16,
                name: "PV3_VOLTAGE",
            }),
{
    Register {
            address: 32020,
            quantity: 1,
            gain: 1,
            unit: Some("V"),
            access: Access::RO,
            typ: Type::I16,
            name: "PV3_VOLTAGE",
        }
}

#[verifier::allow_in_spec]
pub fn pv3_current() -> Register
    returns
        (Register {
                address: 32021,
                quantity: 1,
                gain: 2,
                unit: Some("A"),
                access: Access::RO,
                typ: Type::I16,
                name: "PV3_CURRENT",
            }),
{
    Register {
            address: 32021,
            quantity: 1,
            gain: 2,
            unit: Some("A"),
            access: Access::RO,
            typ: Type::I16,
            name: "PV3_CURRENT",
        }
}

#[verifier::allow_in_spec]
pub fn pv4_voltage() -> Register
    returns
        (Register {
                address: 32022,
                quantity: 1,
                gain: 1,
                unit: Some("V"),
                access: Access::RO,
                typ: Type::I16,
                name: "PV4_VOLTAGE",
            }),
{
    Register {
            address: 32022,
            quantity: 1,
            gain: 1,
            unit: Some("V"),
            access: Access::RO,
            typ: Type::I16,
            name: "PV4_VOLTAGE",
        }
}

#[verifier::allow_in_spec]
pub fn pv4_current() -> Register
    returns
        (Register {
                address: 32023,
                quantity: 1,
                gain: 2,
                unit: Some("A"),
                access: Access::RO,
                typ: Type::I16,
                name: "PV4_CURRENT",
            }),
{
    Register {
            address: 32023,
            quantity: 1,
            gain: 2,
            unit: Some("A"),
            access: Access::RO,
            typ: Type::I16,
            name: "PV4_CURRENT",
        }
}

#[verifier::allow_in_spec]
pub fn input_power() -> Register
    returns
        (Register {
                address: 32064,
                quantity: 2,
                gain: 3,
                unit: Some("kW"),
                access: Access::RO,
                typ: Type::I32,
                name: "INPUT_POWER",
            }),
{
    Register {
            address: 32064,
            quantity: 2,
            gain: 3,
            unit: Some("kW"),
            access: Access::RO,
            typ: Type::I32,
            name: "INPUT_POWER",
        }
}

#[verifier::allow_in_spec]
pub fn line_voltage_a_b() -> Register
    returns
        (Register {
                address: 32066,
                quantity: 1,
                gain: 1,
                unit: Some("V"),
                access: Access::RO,
                typ: Type::U16,
                name: "LINE_VOLTAGE_A_B",
            }),
{
    Register {
            address: 32066,
            quantity: 1,
            gain: 1,
            unit: Some("V"),
            access: Access::RO,
            typ: Type::U16,
            name: "LINE_VOLTAGE_A_B",
        }
}

#[verifier::allow_in_spec]
pub fn line_voltage_b_c() -> Register
    returns
        (Register {
                address: 32067,
                quantity: 1,
                gain: 1,
                unit: Some("V"),
                access: Access::RO,
                typ: Type::U16,
                name: "LINE_VOLTAGE_B_C",
            }),
{
    Register {
            address: 32067,
            quantity: 1,
            gain: 1,
            unit: Some("V"),
            access: Access::RO,
            typ: Type::U16,
            name: "LINE_VOLTAGE_B_C",
        }
}

#[verifier::allow_in_spec]
pub fn line_voltage_c_a() -> Register
    returns
        (Register {
                address: 32068,
                quantity: 1,
                gain: 1,
                unit: Some("V"),
                access: Access::RO,
                typ: Type::U16,
                name: "LINE_VOLTAGE_C_A",
            }),
{
    Register {
            address: 32068,
            quantity: 1,
            gain: 1,
            unit: Some("V"),
            access: Access::RO,
            typ: Type::U16,
            name: "LINE_VOLTAGE_C_A",
        }
}

#[verifier::allow_in_spec]
pub fn phase_voltage_a() -> Register
    returns
        (Register {
                address: 32069,
                quantity: 1,
                gain: 1,
                unit: Some("V"),
                access: Access::RO,
                typ: Type::U16,
                name: "PHASE_VOLTAGE_A",
            }),
{
    Register {
            address: 32069,
            quantity: 1,
            gain: 1,
            unit: Some("V"),
            access: Access::RO,
            typ: Type::U16,
            name: "PHASE_VOLTAGE_A",
        }
}

#[verifier::allow_in_spec]
pub fn phase_voltage_b() -> Register
    returns
        (Register {
                address: 32070,
                quantity: 1,
                gain: 1,
                unit: Some("V"),
                access: Access::RO,
                typ: Type::U16,
                name: "PHASE_VOLTAGE_B",
            }),
{
    Register {
            address: 32070,
            quantity: 1,
            gain: 1,
            unit: Some("V"),
            access: Access::RO,
            typ: Type::U16,
            name: "PHASE_VOLTAGE_B",
        }
}

#[verifier::allow_in_spec]
pub fn phase_voltage_c() -> Register
    returns
        (Register {
                address: 32071,
                quantity: 1,
                gain: 1,
                unit: Some("V"),
                access: Access::RO,
                typ: Type::U16,
                name: "PHASE_VOLTAGE_C",
            }),
{
    Register {
            address: 32071,
            quantity: 1,
            gain: 1,
            unit: Some("V"),
            access: Access::RO,
            typ: Type::U16,
            name: "PHASE_VOLTAGE_C",
        }
}

#[verifier::allow_in_spec]
pub fn phase_current_a() -> Register
    returns
        (Register {
                address: 32072,
                quantity: 2,
                gain: 3,
                unit: Some("A"),
                access: Access::RO,
                typ: Type::I32,
                name: "PHASE_CURRENT_A",
            }),
{
    Register {
            address: 32072,
            quantity: 2,
            gain: 3,
            unit: Some("A"),
            access: Access::RO,
            typ: Type::I32,
            name: "PHASE_CURRENT_A",
        }
}

#[verifier::allow_in_spec]
pub fn phase_current_b() -> Register
    returns
        (Register {
                address: 32074,
                quantity: 2,
                gain: 3,
                unit: Some("A"),
                access: Access::RO,
                typ: Type::I32,
                name: "PHASE_CURRENT_B",
            }),
{
    Register {
            address: 32074,
            quantity: 2,
            gain: 3,
            unit: Some("A"),
            access: Access::RO,
            typ: Type::I32,
            name: "PHASE_CURRENT_B",
        }
}

#[verifier::allow_in_spec]
pub fn phase_current_c() -> Register
    returns
        (Register {
                address: 32076,
                quantity: 2,
                gain: 3,
                unit: Some("A"),
                access: Access::RO,
                typ: Type::I32,
                name: "PHASE_CURRENT_C",
            }),
{
    Register {
            address: 32076,
            quantity: 2,
            gain: 3,
            unit: Some("A"),
            access: Access::RO,
            typ: Type::I32,
            name: "PHASE_CURRENT_C",
        }
}

#[verifier::allow_in_spec]
pub fn peak_active_power_day() -> Register
    returns
        (Register {
                address: 32078,
                quantity: 2,
                gain: 3,
                unit: Some("kW"),
                access: Access::RO,
                typ: Type::I32,
                name: "PEAK_ACTIVE_POWER_DAY",
            }),
{
    Register {
            address: 32078,
            quantity: 2,
            gain: 3,
            unit: Some("kW"),
            access: Access::RO,
            typ: Type::I32,
            name: "PEAK_ACTIVE_POWER_DAY",
        }
}

#[verifier::allow_in_spec]
pub fn active_power() -> Register
    returns
        (Register {
                address: 32080,
                quantity: 2,
                gain: 3,
                unit: Some("kW"),
                access: Access::RO,
                typ: Type::I32,
                name: "ACTIVE_POWER",
            }),
{
    Register {
            address: 32080,
            quantity: 2,
            gain: 3,
            unit: Some("kW"),
            access: Access::RO,
            typ: Type::I32,
            name: "ACTIVE_POWER",
        }
}

#[verifier::allow_in_spec]
pub fn reactive_power() -> Register
    returns
        (Register {
                address: 32082,
                quantity: 2,
                gain: 3,
                unit: Some("kVar"),
                access: Access::RO,
                typ: Type::I32,
                name: "REACTIVE_POWER",
            }),
{
    Register {
            address: 32082,
            quantity: 2,
            gain: 3,
            unit: Some("kVar"),
            access: Access::RO,
            typ: Type::I32,
            name: "REACTIVE_POWER",
        }
}

#[verifier::allow_in_spec]
pub fn power_factor() -> Register
    returns
        (Register {
                address: 32084,
                quantity: 1,
                gain: 3,
                unit: None,
                access: Access::RO,
                typ: Type::I16,
                name: "POWER_FACTOR",
            }),
{
    Register {
            address: 32084,
            quantity: 1,
            gain: 3,
            unit: None,
            access: Access::RO,
            typ: Type::I16,
            name: "POWER_FACTOR",
        }
}

#[verifier::allow_in_spec]
pub fn grid_frequency() -> Register
    returns
        (Register {
                address: 32085,
                quantity: 1,
                gain: 2,
                unit: Some("Hz"),
                access: Access::RO,
                typ: Type::U16,
                name: "GRID_FREQUENCY",
            }),
{
    Register {
            address: 32085,
            quantity: 1,
            gain: 2,
            unit: Some("Hz"),
            access: Access::RO,
            typ: Type::U16,
            name: "GRID_FREQUENCY",
        }
}

#[verifier::allow_in_spec]
pub fn efficiency() -> Register
    returns
        (Register {
                address: 32086,
                quantity: 1,
                gain: 2,
                unit: Some("%"),
                access: Access::RO,
                typ: Type::U16,
                name: "EFFICIENCY",
            }),
{
    Register {
            address: 32086,
            quantity: 1,
            gain: 2,
            unit: Some("%"),
            access: Access::RO,
            typ: Type::U16,
            name: "EFFICIENCY",
        }
}

#[verifier::allow_in_spec]
pub fn internal_temperature() -> Register
    returns
        (Register {
                address: 32087,
                quantity: 1,
                gain: 1,
                unit: Some("\u{b0}C"),
                access: Access::RO,
                typ: Type::I16,
                name: "INTERNAL_TEMPERATURE",
            }),
{
    Register {
            address: 32087,
            quantity: 1,
            gain: 1,
            unit: Some("\u{b0}C"),
            access: Access::RO,
            typ: Type::I16,
            name: "INTERNAL_TEMPERATURE",
        }
}

#[verifier::allow_in_spec]
pub fn insulation_resistance() -> Register
    returns
        (Register {
                address: 32088,
                quantity: 1,
                gain: 3,
                unit: Some("M\u{3a9}"),
                access: Access::RO,
                typ: Type::U16,
                name: "INSULATION_RESISTANCE",
            }),
{
    Register {
            address: 32088,
            quantity: 1,
            gain: 3,
            unit: Some("M\u{3a9}"),
            access: Access::RO,
            typ: Type::U16,
            name: "INSULATION_RESISTANCE",
        }
}

#[verifier::allow_in_spec]
pub fn device_status() -> Register
    returns
        (Register {
                address: 32089,
                quantity: 1,
                gain: 0,
                unit: None,
                access: Access::RO,
                typ: Type::U16,
                name: "DEVICE_STATUS",
            }),
{
    Register {
            address: 32089,
            quantity: 1,
            gain: 0,
            unit: None,
            access: Access::RO,
            typ: Type::U16,
            name: "DEVICE_STATUS",
        }
}

#[verifier::allow_in_spec]
pub fn fault_code() -> Register
    returns
        (Register {
                address: 32090,
                quantity: 1,
                gain: 0,
                unit: None,
                access: Access::RO,
                typ: Type::U16,
                name: "FAULT_CODE",
            }),
{
    Register {
            address: 32090,
            quantity: 1,
            gain: 0,
            unit: None,
            access: Access::RO,
            typ: Type::U16,
            name: "FAULT_CODE",
        }
}

#[verifier::allow_in_spec]
pub fn startup_time() -> Register
    returns
        (Register {
                address: 32091,
                quantity: 2,
                gain: 0,
                unit: None,
                access: Access::RO,
                typ: Type::U32,
                name: "STARTUP_TIME",
            }),
{
    Register {
            address: 32091,
            quantity: 2,
            gain: 0,
            unit: None,
            access: Access::RO,
            typ: Type::U32,
            name: "STARTUP_TIME",
        }
}

#[verifier::allow_in_spec]
pub fn shutdown_time() -> Register
    returns
        (Register {
                address: 32093,
                quantity: 2,
                gain: 0,
                unit: None,
                access: Access::RO,
                typ: Type::U32,
                name: "SHUTDOWN_TIME",
            }),
{
    Register {
            address: 32093,
            quantity: 2,
            gain: 0,
            unit: None,
            access: Access::RO,
            typ: Type::U32,
            name: "SHUTDOWN_TIME",
        }
}

#[verifier::allow_in_spec]
pub fn acc_energy_yield() -> Register
    returns
        (Register {
                address: 32106,
                quantity: 2,
                gain: 2,
                unit: Some("kWh"),
                access: Access::RO,
                typ: Type::U32,
                name: "ACC_ENERGY_YIELD",
            }),
{
    Register {
            address: 32106,
            quantity: 2,
            gain: 2,
            unit: Some("kWh"),
            access: Access::RO,
            typ: Type::U32,
            name: "ACC_ENERGY_YIELD",
        }
}

#[verifier::allow_in_spec]
pub fn energy_yield_day() -> Register
    returns
        (Register {
                address: 32114,
                quantity: 2,
                gain: 2,
                unit: Some("kWh"),
                access: Access::RO,
                typ: Type::U32,
                name: "ENERGY_YIELD_DAY",
            }),
{
    Register {
            address: 32114,
            quantity: 2,
            gain: 2,
            unit: Some("kWh"),
            access: Access::RO,
            typ: Type::U32,
            name: "ENERGY_YIELD_DAY",
        }
}

#[verifier::allow_in_spec]
pub fn startup() -> Register
    returns
        (Register {
                address: 40200,
                quantity: 1,
                gain: 0,
                unit: None,
                access: Access::WO,
                typ: Type::U16,
                name: "STARTUP",
            }),
{
    Register {
            address: 40200,
            quantity: 1,
            gain: 0,
            unit: None,
            access: Access::WO,
            typ: Type::U16,
            name: "STARTUP",
        }
}

#[verifier::allow_in_spec]
pub fn shutdown() -> Register
    returns
        (Register {
                address: 40201,
                quantity: 1,
                gain: 0,
                unit: None,
                access: Access::WO,
                typ: Type::U16,
                name: "SHUTDOWN",
            }),
{
    Register {
            address: 40201,
            quantity: 1,
            gain: 0,
            unit: None,
            access: Access::WO,
            typ: Type::U16,
            name: "SHUTDOWN",
        }
}

#[verifier::allow_in_spec]
pub fn grid_code() -> Register
    returns
        (Register {
                address: 42000,
                quantity: 1,
                gain: 0,
                unit: None,
                access: Access::RW,
                typ: Type::U16,
                name: "GRID_CODE",
            }),
{
    Register {
            address: 42000,
            quantity: 1,
            gain: 0,
            unit: None,
            access: Access::RW,
            typ: Type::U16,
            name: "GRID_CODE",
        }
}

#[verifier::allow_in_spec]
pub fn time_zone() -> Register
    returns
        (Register {
                address: 43006,
                quantity: 1,
                gain: 0,
                unit: Some("min"),
                access: Access::RW,
                typ: Type::I16,
                name: "TIME_ZONE",
            }),
{
    Register {
            address: 43006,
            quantity: 1,
            gain: 0,
            unit: Some("min"),
            access: Access::RW,
            typ: Type::I16,
            name: "TIME_ZONE",
        }
}

/// Every descriptor of the catalog, in address order.
pub open spec fn spec_catalog() -> Seq<Register> {
    seq![
        model(),
        sn(),
        pn(),
        model_id(),
        number_of_pv_strings(),
        number_of_mpp_trackers(),
        rated_power(),
        maximum_active_power(),
        maximum_apparent_power(),
        maximum_reactive_power_to_grid(),
        maximum_apparent_power_from_grid(),
        state_1(),
        state_2(),
        state_3(),
        alarm_1(),
        alarm_2(),
        alarm_3(),
        pv1_voltage(),
        pv1_current(),
        pv2_voltage(),
        pv2_current(),
        pv3_voltage(),
        pv3_current(),
        pv4_voltage(),
        pv4_current(),
        input_power(),
        line_voltage_a_b(),
        line_voltage_b_c(),
        line_voltage_c_a(),
        phase_voltage_a(),
        phase_voltage_b(),
        phase_voltage_c(),
        phase_current_a(),
        phase_current_b(),
        phase_current_c(),
        peak_active_power_day(),
        active_power(),
        reactive_power(),
        power_factor(),
        grid_frequency(),
        efficiency(),
        internal_temperature(),
        insulation_resistance(),
        device_status(),
        fault_code(),
        startup_time(),
        shutdown_time(),
        acc_energy_yield(),
        energy_yield_day(),
        startup(),
        shutdown(),
        grid_code(),
        time_zone(),
    ]
}

/// The catalog as a vector: the immutable register table of the device.
pub fn catalog() -> (v: Vec<Register>)
    ensures
        v@ == spec_catalog(),
        forall|i: int| 0 <= i < v@.len() ==> (#[trigger] v@[i]).wf(),
{
    let v = vec![
        model(),
        sn(),
        pn(),
        model_id(),
        number_of_pv_strings(),
        number_of_mpp_trackers(),
        rated_power(),
        maximum_active_power(),
        maximum_apparent_power(),
        maximum_reactive_power_to_grid(),
        maximum_apparent_power_from_grid(),
        state_1(),
        state_2(),
        state_3(),
        alarm_1(),
        alarm_2(),
        alarm_3(),
        pv1_voltage(),
        pv1_current(),
        pv2_voltage(),
        pv2_current(),
        pv3_voltage(),
        pv3_current(),
        pv4_voltage(),
        pv4_current(),
        input_power(),
        line_voltage_a_b(),
        line_voltage_b_c(),
        line_voltage_c_a(),
        phase_voltage_a(),
        phase_voltage_b(),
        phase_voltage_c(),
        phase_current_a(),
        phase_current_b(),
        phase_current_c(),
        peak_active_power_day(),
        active_power(),
        reactive_power(),
        power_factor(),
        grid_frequency(),
        efficiency(),
        internal_temperature(),
        insulation_resistance(),
        device_status(),
        fault_code(),
        startup_time(),
        shutdown_time(),
        acc_energy_yield(),
        energy_yield_day(),
        startup(),
        shutdown(),
        grid_code(),
        time_zone(),
    ];
    proof {
        assert(v@ =~= spec_catalog());
    }
    v
}


/// Look a descriptor up by its device address: the first catalog entry at
/// that address, or nothing when no entry has it.
pub fn find_by_address(address: u16) -> (r: Option<Register>)
    ensures
        match r {
            Some(reg) => spec_catalog().contains(reg) && reg.address == address,
            None => forall|i: int|
                0 <= i < spec_catalog().len() ==> spec_catalog()[i].address != address,
        },
{
    let regs = catalog();
    let mut k: usize = 0;
    while k < regs.len()
        invariant
            k <= regs@.len(),
            regs@ == spec_catalog(),
            forall|i: int| 0 <= i < k ==> spec_catalog()[i].address != address,
        decreases regs@.len() - k,
    {
        if regs[k].address == address {
            return Some(regs[k]);
        }
        k = k + 1;
    }
    None
}

} // verus!
