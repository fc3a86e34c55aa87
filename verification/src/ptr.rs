//! Cached and uncached views of memory: the same physical address seen
//! through the segment with bit 30 clear (cached) or set (uncached).
use vstd::prelude::*;

verus! {

/// The uncached alias of an address: bit 30 set.
pub open spec fn uncached(addr: usize) -> usize {
    addr | 0x4000_0000
}

/// The cached alias of an address: bit 30 clear.
pub open spec fn cached(addr: usize) -> usize {
    addr & !0x4000_0000usize
}

/// The uncached alias of a read-only address.
pub fn make_uncached(addr: usize) -> (a: usize)
    ensures
        a == uncached(addr),
{
    addr | 0x4000_0000
}

/// The uncached alias of a writable address.
pub fn make_uncached_mut(addr: usize) -> (a: usize)
    ensures
        a == uncached(addr),
{
    addr | 0x4000_0000
}

/// The cached alias of a read-only address.
pub fn make_cached(addr: usize) -> (a: usize)
    ensures
        a == cached(addr),
{
    addr & !0x4000_0000usize
}

/// The cached alias of a writable address.
pub fn make_cached_mut(addr: usize) -> (a: usize)
    ensures
        a == cached(addr),
{
    addr & !0x4000_0000usize
}

/// Law: switching between the cached and uncached aliases changes bit 30
/// only; either alias taken twice, or after the other, is the same address.
pub proof fn law_cache_aliases(addr: usize)
    ensures
        cached(uncached(addr)) == cached(addr),
        uncached(cached(addr)) == uncached(addr),
        uncached(uncached(addr)) == uncached(addr),
        cached(cached(addr)) == cached(addr),
        uncached(addr) - cached(addr) == 0x4000_0000,
{
    assert(((addr | 0x4000_0000) & !0x4000_0000usize) == addr & !0x4000_0000usize
        && ((addr & !0x4000_0000usize) | 0x4000_0000) == addr | 0x4000_0000
        && ((addr | 0x4000_0000) | 0x4000_0000) == addr | 0x4000_0000
        && ((addr & !0x4000_0000usize) & !0x4000_0000usize) == addr & !0x4000_0000usize
        && (addr | 0x4000_0000) - (addr & !0x4000_0000usize) == 0x4000_0000) by (bit_vector);
}

} // verus!
