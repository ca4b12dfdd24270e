use vstd::prelude::*;

verus! {

/// The base of the 4 KiB page holding an address: the page whose protection
/// must be made writable before patching a hooked entry point and
/// executable-readable again afterward.
pub open spec fn page_of(addr: u64) -> u64 {
    addr & 0xffff_ffff_ffff_f000u64
}

/// The compute part of toggling a page's protection: aligns an address down
/// to the base of its page. The platform's protection call itself — which
/// takes this base — is the host shell's, not the library's.
pub fn page_base(addr: u64) -> (r: u64)
    ensures
        r == page_of(addr),
        r & 0xfffu64 == 0,
        r <= addr,
        addr < r + 0x1000,
{
    let r: u64 = addr & 0xffff_ffff_ffff_f000;
    proof {
        assert((addr & 0xffff_ffff_ffff_f000u64) & 0xfffu64 == 0) by (bit_vector);
        assert(addr & 0xffff_ffff_ffff_f000u64 <= addr) by (bit_vector);
        assert(addr < (addr & 0xffff_ffff_ffff_f000u64) + 0x1000) by (bit_vector);
    }
    r
}

/// The compute part of hook-address resolution: a hooked entry point, the
/// delta-time cell, and the input-dispatch entry points all lie at a fixed
/// offset from the loaded module's base. `None` exactly when the sum does
/// not fit in an address.
pub fn resolve_target(module_base: u64, offset: u64) -> (r: Option<u64>)
    ensures
        (match r {
            Some(addr) => addr == module_base + offset,
            None => module_base + offset > u64::MAX,
        }),
{
    module_base.checked_add(offset)
}

} // verus!
