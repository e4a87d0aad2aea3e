//! Read/modify/write helpers for 32-bit peripheral register images.
//!
//! On the target these words live at fixed memory-mapped addresses and are
//! accessed through volatile loads and stores; here a register is an owned
//! `u32` image, so every helper is ordinary verified bit arithmetic.

use vstd::prelude::*;

verus! {

/// Errors that the register-level helpers may report. No helper fails today;
/// the variant is kept for forward compatibility.
#[derive(Copy, Clone, PartialEq, Eq, Structural, Debug)]
pub enum Errors {
    Unknown,
}

/// The value a register image holds after bits of `mod_mask` are replaced by
/// the matching bits of `reg_val`, as `modify_reg_bits` computes it.
pub open spec fn modified_bits(reg: u32, mod_mask: u32, reg_val: u32) -> u32 {
    (reg & !(reg_val ^ mod_mask)) | (reg_val & mod_mask)
}

/// Set every bit of `bitmsk` in the register image.
pub fn set_reg_bitmsk(register: &mut u32, bitmsk: u32)
    ensures
        *final(register) == (*old(register) | bitmsk),
{
    *register = *register | bitmsk;
}

/// Clear every bit of `bitmsk` in the register image.
pub fn clr_reg_bitmsk(register: &mut u32, bitmsk: u32)
    ensures
        *final(register) == (*old(register) & !bitmsk),
{
    *register = *register & !bitmsk;
}

/// Replace the bits selected by `mod_mask` with the matching bits of
/// `reg_val`, leaving the other bits alone. `reg_val` must not carry bits
/// outside `mod_mask`; the raw formula in `modified_bits` says what happens
/// in any case, and the second postcondition gives the masked reading.
pub fn modify_reg_bits(register: &mut u32, mod_mask: u32, reg_val: u32)
    ensures
        *final(register) == modified_bits(*old(register), mod_mask, reg_val),
        reg_val & !mod_mask == 0 ==> *final(register) == ((*old(register) & !mod_mask) | (
        reg_val & mod_mask)),
{
    proof {
        lemma_modified_bits_contained(*register, mod_mask, reg_val);
    }
    let mut regval: u32 = *register;
    // only keep the bits to modify
    let del_msk: u32 = reg_val ^ mod_mask;
    regval = regval & !del_msk;
    let set_msk: u32 = reg_val & mod_mask;
    regval = regval | set_msk;
    *register = regval;
}

/// When `reg_val` stays inside `mod_mask`, the raw modify formula reduces to
/// clearing the masked field and writing `reg_val` into it.
proof fn lemma_modified_bits_contained(reg: u32, mod_mask: u32, reg_val: u32)
    ensures
        reg_val & !mod_mask == 0 ==> modified_bits(reg, mod_mask, reg_val) == ((reg & !mod_mask) | (
        reg_val & mod_mask)),
{
    assert(reg_val & !mod_mask == 0 ==> (reg & !(reg_val ^ mod_mask)) | (reg_val & mod_mask) == ((
    reg & !mod_mask) | (reg_val & mod_mask))) by (bit_vector);
}

/// Overwrite the register image with `reg_val`.
pub fn set_reg(register: &mut u32, reg_val: u32)
    ensures
        *final(register) == reg_val,
{
    *register = reg_val;
}

/// Read the register image.
pub fn get_reg(register: &u32) -> (r: u32)
    ensures
        r == *register,
{
    *register
}

} // verus!
