use vstd::prelude::*;

verus! {

/// Big-endian value of a byte pair.
pub open spec fn join_spec(hi: u8, lo: u8) -> u16 {
    (hi as int * 256 + lo as int) as u16
}

/// Two's-complement reading of `field`, a pattern of a field whose values
/// range over `0..span` (`span` is two to the field's width).
pub open spec fn sign_extend(field: int, span: int) -> int {
    if 2 * field >= span {
        field - span
    } else {
        field
    }
}

/// Joins two bytes into one big-endian word: `hi` becomes the high byte.
pub fn join_u8(hi: u8, lo: u8) -> (r: u16)
    ensures
        r as int == hi as int * 256 + lo as int,
        r == join_spec(hi, lo),
{
    (hi as u16) * 256 + (lo as u16)
}

/// Sign-extends the low 5 bits of `instruction` (an ADD/AND immediate).
pub fn sign_ext_imm5(instruction: u16) -> (r: i16)
    ensures
        r as int == sign_extend(instruction as int % 32, 32),
{
    let field = (instruction % 32) as i16;
    if field >= 16 {
        field - 32
    } else {
        field
    }
}

/// Sign-extends the low 6 bits of `instruction` (an LDR/STR offset).
pub fn sign_ext_imm6(instruction: u16) -> (r: i16)
    ensures
        r as int == sign_extend(instruction as int % 64, 64),
{
    let field = (instruction % 64) as i16;
    if field >= 32 {
        field - 64
    } else {
        field
    }
}

/// Sign-extends the low 9 bits of `instruction` (a PC-relative offset).
pub fn sign_ext_imm9(instruction: u16) -> (r: i16)
    ensures
        r as int == sign_extend(instruction as int % 512, 512),
{
    let field = (instruction % 512) as i16;
    if field >= 256 {
        field - 512
    } else {
        field
    }
}

/// Sign-extends the low 11 bits of `instruction` (a JSR offset).
pub fn sign_ext_imm11(instruction: u16) -> (r: i16)
    ensures
        r as int == sign_extend(instruction as int % 2048, 2048),
{
    let field = (instruction % 2048) as i16;
    if field >= 1024 {
        field - 2048
    } else {
        field
    }
}

/// Sign extension loses nothing: for the field widths that instructions use
/// (5, 6, 9 and 11 bits), the extended value lies in the field's signed range,
/// and its low bits (the value modulo the field's span) are the original
/// pattern again.
pub proof fn lemma_sign_extend_keeps_pattern(field: int, span: int)
    requires
        span == 32 || span == 64 || span == 512 || span == 2048,
        0 <= field < span,
    ensures
        -(span / 2) <= sign_extend(field, span) < span / 2,
        sign_extend(field, span) % span == field,
{
    if span == 32 {
        assert(sign_extend(field, span) % 32 == field);
    } else if span == 64 {
        assert(sign_extend(field, span) % 64 == field);
    } else if span == 512 {
        assert(sign_extend(field, span) % 512 == field);
    } else {
        assert(sign_extend(field, span) % 2048 == field);
    }
}

} // verus!
