//! Flat byte-addressable RAM with little-endian multi-byte access.
use vstd::prelude::*;
use vstd::arithmetic::div_mod::{lemma_div_denominator, lemma_mod_breakdown, lemma_small_mod};

use crate::utils::{Exception, Size};

verus! {

pub const MEMORY_SIZE: usize = 0x4000_0000;

pub const MEMORY_START: u32 = 0x8000_0000;

pub const MEMORY_END: u32 = 0xbfff_ffff;

/// `256` raised to the power `n`.
pub open spec fn pow256(n: nat) -> nat
    decreases n,
{
    if n == 0 {
        1
    } else {
        256 * pow256((n - 1) as nat)
    }
}

/// The number whose little-endian bytes are `s`.
pub open spec fn le_decode(s: Seq<u8>) -> nat
    decreases s.len(),
{
    if s.len() == 0 {
        0
    } else {
        s[0] as nat + 256 * le_decode(s.drop_first())
    }
}

/// The `n` low-order bytes of `v`, least significant first.
pub open spec fn le_encode(v: nat, n: nat) -> Seq<u8> {
    Seq::new(n, |i: int| ((v / pow256(i as nat)) % 256) as u8)
}

/// `s` with the bytes from `off` on replaced by `b`.
pub open spec fn splice(s: Seq<u8>, off: int, b: Seq<u8>) -> Seq<u8> {
    s.subrange(0, off) + b + s.subrange(off + b.len(), s.len() as int)
}

pub proof fn lemma_pow256_pos(n: nat)
    ensures
        pow256(n) > 0,
    decreases n,
{
    if n > 0 {
        lemma_pow256_pos((n - 1) as nat);
    }
}

proof fn lemma_pow256_mono(a: nat, b: nat)
    requires
        a <= b,
    ensures
        pow256(a) <= pow256(b),
    decreases b,
{
    if a < b {
        lemma_pow256_mono(a, (b - 1) as nat);
        lemma_pow256_pos((b - 1) as nat);
    }
}

proof fn lemma_pow256_8()
    ensures
        pow256(8) == 0x1_0000_0000_0000_0000,
{
    reveal_with_fuel(pow256, 9);
}

proof fn lemma_encode_tail(v: nat, n: nat)
    requires
        n > 0,
    ensures
        le_encode(v, n).drop_first() =~= le_encode(v / 256, (n - 1) as nat),
{
    assert forall|j: int| 0 <= j < n - 1 implies le_encode(v, n).drop_first()[j] == le_encode(
        v / 256,
        (n - 1) as nat,
    )[j] by {
        lemma_pow256_pos(j as nat);
        lemma_div_denominator(v as int, 256, pow256(j as nat) as int);
    }
}

/// Decoding the `n` little-endian bytes of `v` gives `v` reduced modulo `256^n`.
pub proof fn lemma_decode_encode(v: nat, n: nat)
    ensures
        le_decode(le_encode(v, n)) == v % pow256(n),
    decreases n,
{
    if n == 0 {
    } else {
        lemma_encode_tail(v, n);
        lemma_decode_encode(v / 256, (n - 1) as nat);
        lemma_pow256_pos((n - 1) as nat);
        lemma_mod_breakdown(v as int, 256, pow256((n - 1) as nat) as int);
        assert(le_encode(v, n)[0] == v % 256) by {
            assert(pow256(0) == 1);
            assert(v / 1 == v);
            assert(v % 256 < 256);
        }
    }
}

/// Whether an access of `n` bytes at `address` stays inside the RAM.
pub open spec fn in_bounds(address: u32, n: nat) -> bool {
    MEMORY_START <= address && (address - MEMORY_START) + n <= MEMORY_SIZE
}

/// Outcome of an access of width `size` at `address`.
pub open spec fn access_result(address: u32, size: Size) -> Result<(), Exception> {
    if in_bounds(address, size.spec_bytes()) {
        Ok(())
    } else {
        Err(Exception::BusException)
    }
}

/// What a load of width `size` at `address` returns from the contents `s`.
pub open spec fn load(s: Seq<u8>, address: u32, size: Size) -> Result<u64, Exception> {
    if in_bounds(address, size.spec_bytes()) {
        let off = address - MEMORY_START;
        Ok(le_decode(s.subrange(off, off + size.spec_bytes())) as u64)
    } else {
        Err(Exception::BusException)
    }
}

/// The contents `s` after a store of width `size` of `data` at `address`.
pub open spec fn store(s: Seq<u8>, address: u32, size: Size, data: u64) -> Seq<u8> {
    if in_bounds(address, size.spec_bytes()) {
        splice(s, address - MEMORY_START, le_encode(data as nat, size.spec_bytes()))
    } else {
        s
    }
}

/// A load after a store of the same width at the same place gives back the stored
/// value reduced to that width, hence the value itself when it fits in that width.
pub proof fn lemma_store_load(s: Seq<u8>, address: u32, size: Size, data: u64)
    requires
        s.len() == MEMORY_SIZE,
        in_bounds(address, size.spec_bytes()),
    ensures
        load(store(s, address, size, data), address, size) == Ok::<u64, Exception>(
            (data as nat % pow256(size.spec_bytes())) as u64,
        ),
        data < pow256(size.spec_bytes()) ==> load(store(s, address, size, data), address, size)
            == Ok::<u64, Exception>(data),
{
    let n = size.spec_bytes();
    let off = (address - MEMORY_START) as int;
    let after = splice(s, off, le_encode(data as nat, n));
    assert(after.subrange(off, off + n) =~= le_encode(data as nat, n));
    lemma_decode_encode(data as nat, n);
    lemma_pow256_pos(n);
    if data < pow256(n) {
        lemma_small_mod(data as nat, pow256(n));
    }
}

/// After a store, a load of the same or a narrower width at the same address gives the
/// stored value reduced to the width of the load (little-endian layout).
pub proof fn lemma_store_load_narrower(s: Seq<u8>, address: u32, wsize: Size, rsize: Size, data: u64)
    requires
        s.len() == MEMORY_SIZE,
        in_bounds(address, wsize.spec_bytes()),
        rsize.spec_bytes() <= wsize.spec_bytes(),
    ensures
        load(store(s, address, wsize, data), address, rsize) == Ok::<u64, Exception>(
            (data as nat % pow256(rsize.spec_bytes())) as u64,
        ),
{
    let wn = wsize.spec_bytes();
    let rn = rsize.spec_bytes();
    let off = (address - MEMORY_START) as int;
    let after = splice(s, off, le_encode(data as nat, wn));
    assert(after.subrange(off, off + rn) =~= le_encode(data as nat, rn));
    lemma_decode_encode(data as nat, rn);
}

/// After a store, a one-byte load at offset `i` inside the stored bytes gives byte `i`
/// of the stored value, counting from the least significant (no alignment is needed).
pub proof fn lemma_store_load_byte(s: Seq<u8>, address: u32, wsize: Size, data: u64, i: nat)
    requires
        s.len() == MEMORY_SIZE,
        in_bounds(address, wsize.spec_bytes()),
        i < wsize.spec_bytes(),
    ensures
        load(store(s, address, wsize, data), (address + i) as u32, Size::_1) == Ok::<
            u64,
            Exception,
        >(((data as nat / pow256(i)) % 256) as u64),
{
    let wn = wsize.spec_bytes();
    let off = (address - MEMORY_START) as int;
    let after = splice(s, off, le_encode(data as nat, wn));
    let one = after.subrange(off + i, off + i + 1);
    assert(one =~= seq![le_encode(data as nat, wn)[i as int]]);
    reveal_with_fuel(le_decode, 2);
    assert(one.drop_first().len() == 0);
}

/// The RAM device: a fixed-size buffer owned by the bus.
#[derive(Debug)]
pub struct Memory {
    mem: Vec<u8>,
}

impl View for Memory {
    type V = Seq<u8>;

    closed spec fn view(&self) -> Seq<u8> {
        self.mem@
    }
}

impl Memory {
    pub open spec fn wf(&self) -> bool {
        self@.len() == MEMORY_SIZE
    }


    /// A zero-filled memory.
    pub fn new() -> (r: Memory)
        ensures
            r.wf(),
            forall|i: int| 0 <= i < MEMORY_SIZE ==> #[trigger] r@[i] == 0,
    {
        let mem: Vec<u8> = vec![0u8; MEMORY_SIZE];
        Memory { mem }
    }

    /// Little-endian load of `size` bytes at `address`.
    pub fn read(&self, address: u32, size: Size) -> (r: Result<u64, Exception>)
        requires
            self.wf(),
            MEMORY_START <= address,
        ensures
            r == load(self@, address, size),
    {
        let n = size.bytes();
        let off = (address - MEMORY_START) as usize;
        if off > MEMORY_SIZE - n {
            return Err(Exception::BusException);
        }
        let mut r: u64 = 0;
        let mut i: usize = n;
        while i > 0
            invariant
                n == size.spec_bytes(),
                1 <= n <= 8,
                off + n <= MEMORY_SIZE,
                self.wf(),
                i <= n,
                r as nat == le_decode(self@.subrange(off + i, off + n)),
                r < pow256((n - i) as nat),
            decreases i,
        {
            let ghost old_r = r;
            proof {
                lemma_pow256_mono((n - i + 1) as nat, 8);
                lemma_pow256_8();
                let s = self@.subrange(off + i - 1, off + n);
                assert(s.drop_first() =~= self@.subrange(off + i, off + n));
                assert(r * 256 + 255 < pow256((n - i + 1) as nat)) by (nonlinear_arith)
                    requires
                        r < pow256((n - i) as nat),
                        pow256((n - i + 1) as nat) == 256 * pow256((n - i) as nat),
                ;
            }
            i = i - 1;
            r = r * 256 + self.mem[off + i] as u64;
        }
        proof {
            lemma_pow256_mono(n as nat, 8);
            lemma_pow256_8();
        }
        Ok(r)
    }

    /// Little-endian store of the `size` low-order bytes of `data` at `address`.
    pub fn write(&mut self, address: u32, size: Size, data: u64) -> (r: Result<(), Exception>)
        requires
            old(self).wf(),
            MEMORY_START <= address,
        ensures
            final(self).wf(),
            r == access_result(address, size),
            final(self)@ == store(old(self)@, address, size, data),
    {
        let n = size.bytes();
        let off = (address - MEMORY_START) as usize;
        if off > MEMORY_SIZE - n {
            return Err(Exception::BusException);
        }
        let ghost enc = le_encode(data as nat, n as nat);
        let mut x: u64 = data;
        let mut i: usize = 0;
        assert(data as nat / pow256(0) == data as nat) by {
            assert(pow256(0) == 1);
        }
        while i < n
            invariant
                n == size.spec_bytes(),
                1 <= n <= 8,
                off + n <= MEMORY_SIZE,
                enc == le_encode(data as nat, n as nat),
                old(self).wf(),
                self.wf(),
                i <= n,
                x as nat == data as nat / pow256(i as nat),
                forall|j: int|
                    0 <= j < MEMORY_SIZE && !(off <= j < off + i) ==> #[trigger] self@[j] == old(
                        self,
                    )@[j],
                forall|j: int| off <= j < off + i ==> #[trigger] self@[j] == enc[j - off],
            decreases n - i,
        {
            proof {
                lemma_pow256_pos(i as nat);
                lemma_div_denominator(data as int, pow256(i as nat) as int, 256);
            }
            self.mem.set(off + i, (x % 256) as u8);
            x = x / 256;
            i = i + 1;
        }
        assert(self@ =~= splice(old(self)@, off as int, enc));
        Ok(())
    }
}

} // verus!
