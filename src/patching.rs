//! A ledger of byte patches applied to the current address space.
//!
//! The ledger records every patch together with the bytes it replaced, and
//! turns each request into the memory writes that carry it out. The writes are
//! handed back as values; the caller performs them on real memory.
use vstd::prelude::*;
use vstd::slice::slice_to_vec;

verus! {

/// A write of `bytes` starting at `address`.
pub struct PendingWrite {
    pub address: usize,
    pub bytes: Vec<u8>,
}

/// Mathematical form of a [`PendingWrite`].
pub ghost struct WriteSpec {
    pub address: int,
    pub bytes: Seq<u8>,
}

impl PendingWrite {
    pub open spec fn spec(&self) -> WriteSpec {
        WriteSpec { address: self.address as int, bytes: self.bytes@ }
    }
}

/// Memory as a map from address to byte; its domain is the mapped memory.
pub type MemorySpec = Map<int, u8>;

/// Every byte of `[address, address + len)` is mapped.
pub open spec fn mapped(mem: MemorySpec, address: int, len: int) -> bool {
    forall|a: int| address <= a < address + len ==> #[trigger] mem.dom().contains(a)
}

/// The `len` bytes stored at `address`.
pub open spec fn read_range(mem: MemorySpec, address: int, len: int) -> Seq<u8> {
    Seq::new(len as nat, |i: int| mem[address + i])
}

/// Memory after `w`: the bytes of `w` replace those of its range, the rest is
/// untouched and the mapping does not change.
pub open spec fn apply_write(mem: MemorySpec, w: WriteSpec) -> MemorySpec {
    Map::new(
        |a: int| mem.dom().contains(a),
        |a: int|
            if w.address <= a < w.address + w.bytes.len() {
                w.bytes[a - w.address]
            } else {
                mem[a]
            },
    )
}

/// Memory after the writes of `ws`, performed first to last.
pub open spec fn apply_writes(mem: MemorySpec, ws: Seq<WriteSpec>) -> MemorySpec
    decreases ws.len(),
{
    if ws.len() == 0 {
        mem
    } else {
        apply_write(apply_writes(mem, ws.drop_last()), ws.last())
    }
}

/// The write of `bytes` at `address`.
pub open spec fn write_of(address: int, bytes: Seq<u8>) -> WriteSpec {
    WriteSpec { address, bytes }
}

/// Mathematical form of a [`Patch`].
pub ghost struct PatchSpec {
    pub address: int,
    pub patch_bytes: Seq<u8>,
    pub original_bytes: Seq<u8>,
}

/// A patch: the bytes written at `address` and the bytes they replaced.
pub struct Patch {
    pub address: usize,
    pub patch_bytes: Vec<u8>,
    pub original_bytes: Vec<u8>,
}

impl Patch {
    pub open spec fn spec(&self) -> PatchSpec {
        PatchSpec {
            address: self.address as int,
            patch_bytes: self.patch_bytes@,
            original_bytes: self.original_bytes@,
        }
    }

    /// The bytes that were in place before the patch.
    pub fn original_bytes(&self) -> (r: &[u8])
        ensures
            r@ == self.original_bytes@,
    {
        self.original_bytes.as_slice()
    }

    /// The bytes the patch installs.
    pub fn patch_bytes(&self) -> (r: &[u8])
        ensures
            r@ == self.patch_bytes@,
    {
        self.patch_bytes.as_slice()
    }
}

/// The patch of `patch_bytes` at `address` that replaced `original_bytes`.
pub open spec fn patch_of(address: int, patch_bytes: Seq<u8>, original_bytes: Seq<u8>) -> PatchSpec {
    PatchSpec { address, patch_bytes, original_bytes }
}

/// The write that installs `p`.
pub open spec fn install_write(p: PatchSpec) -> WriteSpec {
    WriteSpec { address: p.address, bytes: p.patch_bytes }
}

/// The write that puts back what `p` replaced.
pub open spec fn restore_write(p: PatchSpec) -> WriteSpec {
    WriteSpec { address: p.address, bytes: p.original_bytes }
}

/// Mathematical form of a list of writes.
pub open spec fn writes_spec(ws: Seq<PendingWrite>) -> Seq<WriteSpec> {
    ws.map_values(|w: PendingWrite| w.spec())
}

/// Mathematical form of an optional write.
pub open spec fn opt_write_spec(w: Option<PendingWrite>) -> Option<WriteSpec> {
    match w {
        Some(w) => Some(w.spec()),
        None => None,
    }
}

/// The index of the most recently recorded patch at `address`, if any.
pub open spec fn latest_at(l: Seq<PatchSpec>, address: int) -> Option<int>
    decreases l.len(),
{
    if l.len() == 0 {
        None
    } else if l.last().address == address {
        Some(l.len() - 1)
    } else {
        latest_at(l.drop_last(), address)
    }
}

/// The ledger after removing the most recent patch at `address`, and the
/// write that undoes that patch; the ledger unchanged and no write when no
/// patch is recorded there.
pub open spec fn unpatched(l: Seq<PatchSpec>, address: int) -> (Seq<PatchSpec>, Option<WriteSpec>) {
    match latest_at(l, address) {
        Some(k) => (l.remove(k), Some(restore_write(l[k]))),
        None => (l, None),
    }
}

/// Writes that put back the original bytes of every patch, newest first.
pub open spec fn restore_plan(l: Seq<PatchSpec>) -> Seq<WriteSpec> {
    Seq::new(l.len(), |i: int| restore_write(l[l.len() - 1 - i]))
}

/// Writes that install every patch again, newest first.
pub open spec fn reinstall_plan(l: Seq<PatchSpec>) -> Seq<WriteSpec> {
    Seq::new(l.len(), |i: int| install_write(l[l.len() - 1 - i]))
}

proof fn lemma_latest_at_prefix(l: Seq<PatchSpec>, address: int, i: int)
    requires
        0 < i <= l.len(),
        l[i - 1].address != address,
    ensures
        latest_at(l.take(i), address) == latest_at(l.take(i - 1), address),
{
    assert(l.take(i).drop_last() =~= l.take(i - 1));
}

proof fn lemma_latest_at_hit(l: Seq<PatchSpec>, address: int, i: int)
    requires
        0 < i <= l.len(),
        l[i - 1].address == address,
    ensures
        latest_at(l.take(i), address) == Some(i - 1),
{
}

/// A record of patches, oldest first.
pub struct LocalPatcher {
    patches: Vec<Patch>,
}

impl LocalPatcher {
    /// The recorded patches, oldest first.
    pub closed spec fn view(&self) -> Seq<PatchSpec> {
        self.patches@.map_values(|p: Patch| p.spec())
    }

    /// An empty ledger.
    pub fn new() -> (r: Self)
        ensures
            r.view() == Seq::<PatchSpec>::empty(),
    {
        let r = LocalPatcher { patches: Vec::new() };
        assert(r.view() =~= Seq::<PatchSpec>::empty());
        r
    }

    /// Records a patch of `bytes` at `address` that replaces `original`, the
    /// bytes the caller read there just before, and returns the write that
    /// installs it.
    pub fn patch(&mut self, address: usize, bytes: &[u8], original: &[u8]) -> (r: PendingWrite)
        requires
            original@.len() == bytes@.len(),
        ensures
            final(self).view() == old(self).view().push(patch_of(address as int, bytes@, original@)),
            r.spec() == write_of(address as int, bytes@),
    {
        let p = Patch {
            address,
            patch_bytes: slice_to_vec(bytes),
            original_bytes: slice_to_vec(original),
        };
        self.patches.push(p);
        assert(self.view() =~= old(self).view().push(patch_of(address as int, bytes@, original@)));
        PendingWrite { address, bytes: slice_to_vec(bytes) }
    }

    /// Removes the most recently recorded patch at `address` and returns the
    /// write that puts back the bytes it replaced; nothing when no patch is
    /// recorded there.
    pub fn unpatch(&mut self, address: usize) -> (r: Option<PendingWrite>)
        ensures
            final(self).view() == unpatched(old(self).view(), address as int).0,
            opt_write_spec(r) == unpatched(old(self).view(), address as int).1,
    {
        let ghost l = self.view();
        let mut i = self.patches.len();
        assert(l.take(i as int) =~= l);
        while i > 0 && self.patches[i - 1].address != address
            invariant
                i <= self.patches.len(),
                self.view() == l,
                latest_at(l.take(i as int), address as int) == latest_at(l, address as int),
            decreases i,
        {
            proof {
                lemma_latest_at_prefix(l, address as int, i as int);
            }
            i = i - 1;
        }
        if i == 0 {
            None
        } else {
            proof {
                lemma_latest_at_hit(l, address as int, i as int);
            }
            let p = self.patches.remove(i - 1);
            assert(self.view() =~= l.remove(i - 1));
            assert(p.spec() == l[i - 1]);
            Some(PendingWrite { address: p.address, bytes: p.original_bytes })
        }
    }

    /// The recorded patches, oldest first.
    pub fn patches(&self) -> (r: &[Patch])
        ensures
            r@.map_values(|p: Patch| p.spec()) == self.view(),
    {
        self.patches.as_slice()
    }

    /// The number of recorded patches.
    pub fn len(&self) -> (r: usize)
        ensures
            r == self.view().len(),
    {
        self.patches.len()
    }

    /// Writes that put back the original bytes of every patch, newest first.
    /// The patches stay recorded, so they can be installed again.
    pub fn disable_all_patches(&self) -> (r: Vec<PendingWrite>)
        ensures
            writes_spec(r@) == restore_plan(self.view()),
    {
        self.plan(false)
    }

    /// Writes that install every recorded patch again, newest first.
    pub fn enable_all_patches(&self) -> (r: Vec<PendingWrite>)
        ensures
            writes_spec(r@) == reinstall_plan(self.view()),
    {
        self.plan(true)
    }

    /// Ends the ledger and returns the writes that put back the original
    /// bytes of every remaining patch, newest first.
    pub fn close(self) -> (r: Vec<PendingWrite>)
        ensures
            writes_spec(r@) == restore_plan(self.view()),
    {
        self.plan(false)
    }

    fn plan(&self, install: bool) -> (r: Vec<PendingWrite>)
        ensures
            install ==> writes_spec(r@) == reinstall_plan(self.view()),
            !install ==> writes_spec(r@) == restore_plan(self.view()),
    {
        let ghost l = self.view();
        let n = self.patches.len();
        let mut out: Vec<PendingWrite> = Vec::new();
        let mut i: usize = n;
        while i > 0
            invariant
                n == self.patches.len() == l.len(),
                self.view() == l,
                i <= n,
                out@.len() == n - i,
                forall|j: int|
                    0 <= j < n - i ==> #[trigger] out@[j].spec() == if install {
                        install_write(l[n - 1 - j])
                    } else {
                        restore_write(l[n - 1 - j])
                    },
            decreases i,
        {
            let p = &self.patches[i - 1];
            let bytes = if install {
                slice_to_vec(p.patch_bytes.as_slice())
            } else {
                slice_to_vec(p.original_bytes.as_slice())
            };
            out.push(PendingWrite { address: p.address, bytes });
            i = i - 1;
        }
        if install {
            assert(writes_spec(out@) =~= reinstall_plan(l));
        } else {
            assert(writes_spec(out@) =~= restore_plan(l));
        }
        out
    }
}

} // verus!

verus! {

/// The ledger after `patch(address, bytes)` on memory `mem`: the patch is
/// recorded with the bytes that were at `address` before.
pub open spec fn patched(l: Seq<PatchSpec>, mem: MemorySpec, address: int, bytes: Seq<u8>) -> Seq<PatchSpec> {
    l.push(patch_of(address, bytes, read_range(mem, address, bytes.len() as int)))
}

/// Memory after every patch of `l` is installed on `mem0`, oldest first.
pub open spec fn install_all(mem0: MemorySpec, l: Seq<PatchSpec>) -> MemorySpec
    decreases l.len(),
{
    if l.len() == 0 {
        mem0
    } else {
        apply_write(install_all(mem0, l.drop_last()), install_write(l.last()))
    }
}

/// Every patch of `l` was recorded by `patch` on a mapped range of `mem0`,
/// with the bytes found there once the earlier patches were installed.
pub open spec fn recorded_from(mem0: MemorySpec, l: Seq<PatchSpec>) -> bool
    decreases l.len(),
{
    if l.len() == 0 {
        true
    } else {
        let p = l.last();
        &&& recorded_from(mem0, l.drop_last())
        &&& mapped(mem0, p.address, p.patch_bytes.len() as int)
        &&& p.original_bytes == read_range(
            install_all(mem0, l.drop_last()),
            p.address,
            p.patch_bytes.len() as int,
        )
    }
}

proof fn lemma_write_keeps_mapping(mem: MemorySpec, w: WriteSpec)
    ensures
        apply_write(mem, w).dom() == mem.dom(),
{
    assert(apply_write(mem, w).dom() =~= mem.dom());
}

proof fn lemma_write_then_read(mem: MemorySpec, address: int, bytes: Seq<u8>)
    requires
        mapped(mem, address, bytes.len() as int),
    ensures
        read_range(apply_write(mem, write_of(address, bytes)), address, bytes.len() as int) == bytes,
{
    assert(read_range(apply_write(mem, write_of(address, bytes)), address, bytes.len() as int)
        =~= bytes);
}

proof fn lemma_write_back(mem: MemorySpec, address: int, bytes: Seq<u8>)
    requires
        mapped(mem, address, bytes.len() as int),
    ensures
        apply_write(
            apply_write(mem, write_of(address, bytes)),
            write_of(address, read_range(mem, address, bytes.len() as int)),
        ) == mem,
{
    let back = apply_write(
        apply_write(mem, write_of(address, bytes)),
        write_of(address, read_range(mem, address, bytes.len() as int)),
    );
    assert(back =~= mem);
}

proof fn lemma_apply_writes_first(mem: MemorySpec, w: WriteSpec, ws: Seq<WriteSpec>)
    ensures
        apply_writes(mem, seq![w] + ws) == apply_writes(apply_write(mem, w), ws),
    decreases ws.len(),
{
    if ws.len() == 0 {
        assert((seq![w] + ws).drop_last() =~= Seq::<WriteSpec>::empty());
        assert((seq![w] + ws).last() == w);
        assert(apply_writes(mem, Seq::<WriteSpec>::empty()) == mem);
        assert(ws =~= Seq::<WriteSpec>::empty());
    } else {
        assert((seq![w] + ws).drop_last() =~= seq![w] + ws.drop_last());
        assert((seq![w] + ws).last() == ws.last());
        lemma_apply_writes_first(mem, w, ws.drop_last());
        assert(apply_writes(mem, seq![w] + ws) == apply_write(
            apply_writes(mem, seq![w] + ws.drop_last()),
            ws.last(),
        ));
    }
}

proof fn lemma_install_all_keeps_mapping(mem0: MemorySpec, l: Seq<PatchSpec>)
    ensures
        install_all(mem0, l).dom() == mem0.dom(),
    decreases l.len(),
{
    if l.len() > 0 {
        lemma_install_all_keeps_mapping(mem0, l.drop_last());
        lemma_write_keeps_mapping(install_all(mem0, l.drop_last()), install_write(l.last()));
    }
}

/// Patching `address` and then unpatching it removes exactly that patch and
/// leaves memory as it was before the patch.
pub proof fn lemma_patch_unpatch_round_trip(
    l: Seq<PatchSpec>,
    mem: MemorySpec,
    address: int,
    bytes: Seq<u8>,
)
    requires
        mapped(mem, address, bytes.len() as int),
    ensures
        unpatched(patched(l, mem, address, bytes), address).0 == l,
        unpatched(patched(l, mem, address, bytes), address).1 == Some(
            write_of(address, read_range(mem, address, bytes.len() as int)),
        ),
        apply_write(
            apply_write(mem, write_of(address, bytes)),
            write_of(address, read_range(mem, address, bytes.len() as int)),
        ) == mem,
{
    let l1 = patched(l, mem, address, bytes);
    assert(l1.remove(l.len() as int) =~= l);
    lemma_write_back(mem, address, bytes);
}

/// With two patches at the same address, unpatching removes the later one
/// first and brings memory back to what the earlier patch installed.
pub proof fn lemma_unpatch_latest_layer(
    l: Seq<PatchSpec>,
    mem: MemorySpec,
    address: int,
    first: Seq<u8>,
    second: Seq<u8>,
)
    requires
        mapped(mem, address, first.len() as int),
        mapped(mem, address, second.len() as int),
    ensures
        ({
            let l1 = patched(l, mem, address, first);
            let m1 = apply_write(mem, write_of(address, first));
            let undo = write_of(address, read_range(m1, address, second.len() as int));
            let m2 = apply_write(m1, write_of(address, second));
            &&& unpatched(patched(l1, m1, address, second), address) == (l1, Some(undo))
            &&& apply_write(m2, undo) == m1
            &&& first.len() == second.len() ==> read_range(
                apply_write(m2, undo),
                address,
                first.len() as int,
            ) == first
        }),
{
    let l1 = patched(l, mem, address, first);
    let m1 = apply_write(mem, write_of(address, first));
    lemma_write_keeps_mapping(mem, write_of(address, first));
    let l2 = patched(l1, m1, address, second);
    assert(l2.remove(l1.len() as int) =~= l1);
    lemma_write_back(m1, address, second);
    lemma_write_then_read(mem, address, first);
}

/// A patch recorded, with the bytes it replaced, on memory where the earlier
/// patches of a ledger recorded from `mem0` are installed keeps the ledger
/// recorded from `mem0`, and installing it is the write `patch` returns.
pub proof fn lemma_patch_keeps_record(mem0: MemorySpec, l: Seq<PatchSpec>, address: int, bytes: Seq<u8>)
    requires
        recorded_from(mem0, l),
        mapped(mem0, address, bytes.len() as int),
    ensures
        recorded_from(mem0, patched(l, install_all(mem0, l), address, bytes)),
        install_all(mem0, patched(l, install_all(mem0, l), address, bytes)) == apply_write(
            install_all(mem0, l),
            write_of(address, bytes),
        ),
{
    let l1 = patched(l, install_all(mem0, l), address, bytes);
    assert(l1.drop_last() =~= l);
}

/// Closing a ledger whose patches were all recorded by `patch` on `mem0`
/// puts back, in memory where they are installed, exactly the bytes of
/// `mem0`.
pub proof fn lemma_close_restores(mem0: MemorySpec, l: Seq<PatchSpec>)
    requires
        recorded_from(mem0, l),
    ensures
        apply_writes(install_all(mem0, l), restore_plan(l)) == mem0,
    decreases l.len(),
{
    if l.len() > 0 {
        let rest = l.drop_last();
        let p = l.last();
        let before = install_all(mem0, rest);
        lemma_install_all_keeps_mapping(mem0, rest);
        assert(p.patch_bytes.len() == p.original_bytes.len());
        lemma_write_back(before, p.address, p.patch_bytes);
        assert(restore_plan(l) =~= seq![restore_write(p)] + restore_plan(rest));
        lemma_apply_writes_first(install_all(mem0, l), restore_write(p), restore_plan(rest));
        lemma_close_restores(mem0, rest);
    }
}

} // verus!
