//! Processes, their modules and cross-process memory transfers.
use vstd::prelude::*;
use vstd::slice::slice_subrange;
use crate::pattern::{
    all_matches, is_first_match, parse_signature, scan_all, scan_first, ScanError,
};
use crate::text::{field_text, field_text_lossy, until_nul, utf16_decode, utf16_decode_lossy};

verus! {

/// What can go wrong while inspecting or changing another process.
#[derive(Debug, PartialEq, Eq)]
pub enum ProcessErrorKind {
    /// Reading memory at the address failed or was partial.
    MemoryRead(usize),
    /// Writing memory at the address failed or was partial.
    MemoryWrite(usize),
    /// The module snapshot of the process could not be created.
    InvalidHandleValue,
    /// The module does not live in the current process.
    ModuleNotLocal,
    /// No module's name contains the given text.
    UnknownModule(String),
    /// The thread snapshot of the process could not be created.
    ThreadEnumeration,
    /// An operating system call failed with this error code.
    OtherErr(i32),
    /// Any other failure, described.
    Any(String),
}

/// A process: an operating-system handle, held as its numeric value, and
/// the process identifier derived from it.
#[derive(Debug, Clone, Copy, PartialEq, Eq, Structural)]
pub struct GameProcess {
    pub handle: usize,
    pub pid: u32,
}

/// One entry of a module snapshot, with its fixed-width text fields as
/// NUL-padded UTF-16.
#[derive(Debug)]
pub struct ModuleEntry {
    pub base_address: usize,
    pub base_size: u32,
    pub module_handle: usize,
    pub module_name: Vec<u16>,
    pub exe_path: Vec<u16>,
}

/// The name that an entry's module-name field decodes to, if it decodes.
pub open spec fn entry_name(e: ModuleEntry) -> Option<Seq<char>> {
    utf16_decode(until_nul(e.module_name@))
}

/// The entries whose names decode, in snapshot order.
pub open spec fn decodable_entries(es: Seq<ModuleEntry>) -> Seq<ModuleEntry>
    decreases es.len(),
{
    if es.len() == 0 {
        Seq::empty()
    } else if entry_name(es[0]) is Some {
        seq![es[0]] + decodable_entries(es.drop_first())
    } else {
        decodable_entries(es.drop_first())
    }
}

/// `q` occurs in `s` as a contiguous run.
pub open spec fn contains_text(s: Seq<char>, q: Seq<char>) -> bool {
    exists|i: int| 0 <= i && i + q.len() <= s.len() && #[trigger] s.subrange(i, i + q.len()) == q
}

/// Relies on `str::contains`: whether `q` occurs in `s`.
#[verifier::external_body]
fn str_contains(s: &str, q: &str) -> (r: bool)
    ensures
        r == contains_text(s@, q@),
{
    s.contains(q)
}

/// A module loaded in a process, as one snapshot saw it.
#[derive(Debug)]
pub struct Module {
    pub parent: GameProcess,
    pub entry: ModuleEntry,
    name: String,
}

/// `k` is the first module whose name contains `q`.
pub open spec fn first_named(ms: Seq<Module>, q: Seq<char>, k: int) -> bool {
    &&& 0 <= k < ms.len()
    &&& contains_text(ms[k].spec_name(), q)
    &&& forall|j: int| 0 <= j < k ==> !contains_text(#[trigger] ms[j].spec_name(), q)
}

impl GameProcess {
    /// The process with this handle and identifier.
    pub fn new(handle: usize, pid: u32) -> (r: Self)
        ensures
            r.handle == handle,
            r.pid == pid,
    {
        GameProcess { handle, pid }
    }

    /// Whether this is the process with identifier `current_pid`, the one
    /// running the caller.
    pub fn is_current(&self, current_pid: u32) -> (r: bool)
        ensures
            r == (self.pid == current_pid),
    {
        self.pid == current_pid
    }

    /// The modules of a snapshot of this process, in snapshot order; entries
    /// whose names do not decode are left out.
    pub fn modules_from_entries(&self, entries: Vec<ModuleEntry>) -> (r: Vec<Module>)
        ensures
            r@.map_values(|m: Module| m.spec_entry()) == decodable_entries(entries@),
            forall|i: int|
                0 <= i < r@.len() ==> (#[trigger] r@[i]).spec_parent() == *self && entry_name(r@[i].spec_entry())
                    == Some(r@[i].spec_name()),
    {
        let ghost all = entries@;
        let mut rest = entries;
        let mut out: Vec<Module> = Vec::new();
        let ghost mut i: int = 0;
        assert(all.skip(0) =~= all);
        while rest.len() > 0
            invariant
                0 <= i <= all.len(),
                rest@ == all.skip(i),
                out@.map_values(|m: Module| m.spec_entry()) + decodable_entries(rest@) == decodable_entries(all),
                forall|k: int|
                    0 <= k < out@.len() ==> (#[trigger] out@[k]).spec_parent() == *self && entry_name(
                        out@[k].spec_entry(),
                    ) == Some(out@[k].spec_name()),
            decreases rest@.len(),
        {
            let ghost before = rest@;
            let e = rest.remove(0);
            assert(rest@ =~= before.drop_first());
            assert(all.skip(i + 1) =~= all.skip(i).drop_first());
            let ghost kept = out@.map_values(|m: Module| m.spec_entry());
            match Module::new(*self, e) {
                Ok(m) => {
                    out.push(m);
                    assert(out@.map_values(|m: Module| m.spec_entry()) =~= kept.push(e));
                    assert(kept.push(e) + decodable_entries(rest@) =~= kept + (seq![e]
                        + decodable_entries(rest@)));
                },
                Err(_) => {},
            }
            proof {
                i = i + 1;
            }
        }
        assert(out@.map_values(|m: Module| m.spec_entry()) + Seq::<ModuleEntry>::empty() =~= out@.map_values(
            |m: Module| m.spec_entry(),
        ));
        out
    }

    /// The first module, in order, whose name contains `module_name`
    /// (case-sensitive), or `UnknownModule` when none does.
    pub fn find_module(modules: Vec<Module>, module_name: &str) -> (r: Result<Module, ProcessErrorKind>)
        ensures
            r matches Ok(m) ==> exists|k: int| first_named(modules@, module_name@, k) && m == modules@[k],
            r is Err ==> (forall|k: int|
                0 <= k < modules@.len() ==> !contains_text(#[trigger] modules@[k].spec_name(), module_name@)),
            r matches Err(e) ==> e matches ProcessErrorKind::UnknownModule(s) && s@ == module_name@,
    {
        let ghost all = modules@;
        let mut modules = modules;
        let mut k: usize = 0;
        while k < modules.len() && !str_contains(modules[k].name.as_str(), module_name)
            invariant
                modules@ == all,
                k <= all.len(),
                forall|j: int| 0 <= j < k ==> !contains_text(#[trigger] all[j].spec_name(), module_name@),
            decreases all.len() - k,
        {
            k = k + 1;
        }
        if k < modules.len() {
            let m = modules.remove(k);
            assert(first_named(all, module_name@, k as int) && m == all[k as int]);
            return Ok(m);
        }
        Err(ProcessErrorKind::UnknownModule(module_name.to_owned()))
    }
}

/// The result of a cross-process read of `requested` bytes at `address`, of
/// which the operating system reported `transferred` bytes read (`None` when
/// the call itself failed). Only a complete read succeeds.
pub fn read_result(address: usize, requested: usize, transferred: Option<usize>) -> (r: Result<usize, ProcessErrorKind>)
    ensures
        transferred == Some(requested) ==> r == Ok::<usize, ProcessErrorKind>(requested),
        transferred != Some(requested) ==> r == Err::<usize, ProcessErrorKind>(
            ProcessErrorKind::MemoryRead(address),
        ),
{
    match transferred {
        Some(n) if n == requested => Ok(n),
        _ => Err(ProcessErrorKind::MemoryRead(address)),
    }
}

/// The result of a cross-process write of `requested` bytes at `address`, of
/// which the operating system reported `transferred` bytes written (`None`
/// when the call itself failed). Only a complete write succeeds.
pub fn write_result(address: usize, requested: usize, transferred: Option<usize>) -> (r: Result<(), ProcessErrorKind>)
    ensures
        transferred == Some(requested) ==> r == Ok::<(), ProcessErrorKind>(()),
        transferred != Some(requested) ==> r == Err::<(), ProcessErrorKind>(
            ProcessErrorKind::MemoryWrite(address),
        ),
{
    match transferred {
        Some(n) if n == requested => Ok(()),
        _ => Err(ProcessErrorKind::MemoryWrite(address)),
    }
}

/// A top-level window, as seen while the windows are enumerated.
#[derive(Debug, Clone, Copy, PartialEq, Eq, Structural)]
pub struct WindowInfo {
    /// The window handle, as its numeric value.
    pub handle: usize,
    /// The process that created the window.
    pub process_id: u32,
    /// The window has an owner window.
    pub has_owner: bool,
    /// The window is visible.
    pub visible: bool,
}

/// `w` can be the main window of process `pid`: it belongs to the process, is
/// not the console window, has no owner and is visible.
pub open spec fn is_main_window(w: WindowInfo, pid: u32, console: Option<usize>) -> bool {
    &&& w.process_id == pid
    &&& console != Some(w.handle)
    &&& !w.has_owner
    &&& w.visible
}

/// Handles of the windows of `ws` that belong to process `pid`, in order.
pub open spec fn windows_of(ws: Seq<WindowInfo>, pid: u32) -> Seq<usize>
    decreases ws.len(),
{
    if ws.len() == 0 {
        Seq::empty()
    } else if ws.last().process_id == pid {
        windows_of(ws.drop_last(), pid).push(ws.last().handle)
    } else {
        windows_of(ws.drop_last(), pid)
    }
}

impl GameProcess {
    /// The first window of `windows`, in enumeration order, that can be the
    /// main window of this process; `console` is the caller's console window.
    pub fn main_window_among(&self, windows: &[WindowInfo], console: Option<usize>) -> (r: Option<usize>)
        ensures
            r matches Some(h) ==> exists|k: int|
                0 <= k < windows@.len() && windows@[k].handle == h && is_main_window(
                    windows@[k],
                    self.pid,
                    console,
                ) && forall|j: int| 0 <= j < k ==> !is_main_window(#[trigger] windows@[j], self.pid, console),
            r is None ==> (forall|k: int|
                0 <= k < windows@.len() ==> !is_main_window(#[trigger] windows@[k], self.pid, console)),
    {
        let mut k: usize = 0;
        while k < windows.len()
            invariant
                k <= windows@.len(),
                forall|j: int| 0 <= j < k ==> !is_main_window(#[trigger] windows@[j], self.pid, console),
            decreases windows@.len() - k,
        {
            let w = windows[k];
            let is_console = match console {
                Some(c) => c == w.handle,
                None => false,
            };
            if w.process_id == self.pid && !is_console && !w.has_owner && w.visible {
                assert(is_main_window(windows@[k as int], self.pid, console));
                return Some(w.handle);
            }
            k = k + 1;
        }
        None
    }

    /// Handles of the windows of `windows` that belong to this process, in
    /// enumeration order.
    pub fn windows_among(&self, windows: &[WindowInfo]) -> (r: Vec<usize>)
        ensures
            r@ == windows_of(windows@, self.pid),
    {
        let mut out: Vec<usize> = Vec::new();
        let mut k: usize = 0;
        while k < windows.len()
            invariant
                k <= windows@.len(),
                out@ == windows_of(windows@.take(k as int), self.pid),
            decreases windows@.len() - k,
        {
            assert(windows@.take(k + 1).drop_last() =~= windows@.take(k as int));
            if windows[k].process_id == self.pid {
                out.push(windows[k].handle);
            }
            k = k + 1;
        }
        assert(windows@.take(k as int) =~= windows@);
        out
    }

    /// Whether to keep polling for the main window after `elapsed_ms`
    /// milliseconds without finding it; `None` waits without limit.
    pub fn keep_waiting(elapsed_ms: u64, timeout_ms: Option<u64>) -> (r: bool)
        ensures
            r == match timeout_ms {
                Some(t) => elapsed_ms <= t,
                None => true,
            },
    {
        match timeout_ms {
            Some(t) => elapsed_ms <= t,
            None => true,
        }
    }
}

impl Module {
    /// The name of the module.
    pub closed spec fn spec_name(&self) -> Seq<char> {
        self.name@
    }

    /// The process the module belongs to.
    pub closed spec fn spec_parent(&self) -> GameProcess {
        self.parent
    }

    /// The snapshot entry the module was made from.
    pub closed spec fn spec_entry(&self) -> ModuleEntry {
        self.entry
    }

    /// The module of `entry` in `parent`; fails when the entry's name is not
    /// valid UTF-16.
    pub fn new(parent: GameProcess, entry: ModuleEntry) -> (r: Result<Module, ProcessErrorKind>)
        ensures
            r matches Ok(m) ==> m.spec_parent() == parent && m.spec_entry() == entry && entry_name(entry) == Some(
                m.spec_name(),
            ),
            r is Err ==> (entry_name(entry) is None),
    {
        match field_text(entry.module_name.as_slice()) {
            Some(name) => Ok(Module { parent, entry, name }),
            None => Err(ProcessErrorKind::Any("module name is not valid UTF-16".to_owned())),
        }
    }

    /// Whether the module lives in the process with identifier
    /// `current_pid`, the one running the caller.
    pub fn is_local(&self, current_pid: u32) -> (r: bool)
        ensures
            r == (self.spec_parent().pid == current_pid),
    {
        self.parent.is_current(current_pid)
    }

    /// The base address of the module in its process.
    pub fn base(&self) -> (r: usize)
        ensures
            r == self.spec_entry().base_address,
    {
        self.entry.base_address
    }

    /// The size of the module in its process, in bytes.
    pub fn size(&self) -> (r: usize)
        ensures
            r == self.spec_entry().base_size,
    {
        self.entry.base_size as usize
    }

    /// The name of the module.
    pub fn name(&self) -> (r: &str)
        ensures
            r@ == self.spec_name(),
    {
        self.name.as_str()
    }

    /// The path of the module's file; unpaired surrogates become U+FFFD.
    pub fn path(&self) -> (r: String)
        ensures
            r@ == utf16_decode_lossy(until_nul(self.spec_entry().exe_path@)),
    {
        field_text_lossy(self.entry.exe_path.as_slice())
    }

    /// The handle of the module, as its numeric value.
    pub fn module_handle(&self) -> (r: usize)
        ensures
            r == self.spec_entry().module_handle,
    {
        self.entry.module_handle
    }

    /// The whole module lies below the top of the address space.
    pub open spec fn fits(&self) -> bool {
        self.spec_entry().base_address + self.spec_entry().base_size <= usize::MAX
    }

    /// The offset of `address` from the module's base.
    pub fn relative_offset(&self, address: usize) -> (r: usize)
        requires
            self.spec_entry().base_address <= address,
        ensures
            r == address - self.spec_entry().base_address,
    {
        address - self.entry.base_address
    }

    /// The address at `offset` from the module's base.
    pub fn absolute_address(&self, offset: usize) -> (r: usize)
        requires
            self.fits(),
            offset <= self.spec_entry().base_size,
        ensures
            r == self.spec_entry().base_address + offset,
    {
        self.entry.base_address + offset
    }

    /// This module as a [`LocalModule`], when it lives in the process with
    /// identifier `current_pid`, the one running the caller.
    pub fn to_local(self, current_pid: u32) -> (r: Result<LocalModule, ProcessErrorKind>)
        ensures
            self.spec_parent().pid == current_pid ==> (r matches Ok(l) && l.module() == self),
            self.spec_parent().pid != current_pid ==> (r matches Err(ProcessErrorKind::ModuleNotLocal)),
    {
        LocalModule::new(self, current_pid)
    }
}

/// A [`Module`] that lives in the address space of the current process, so
/// that its bytes can be read directly.
#[derive(Debug)]
pub struct LocalModule(Module);

/// `r` is the address of the first match in `image`, a module image starting
/// at `base`; or the scan failed, as `scan_first` on `image` would.
pub open spec fn found_address(
    image: Seq<u8>,
    sig: Seq<Option<u8>>,
    base: int,
    r: Result<usize, ScanError>,
) -> bool {
    match r {
        Ok(a) => a >= base && is_first_match(image, sig, Some((a - base) as usize)),
        Err(e) => e == ScanError::NotFound && is_first_match(image, sig, None),
    }
}

impl LocalModule {
    pub closed spec fn module(&self) -> Module {
        self.0
    }

    /// `module` as a local module, when it lives in the process with
    /// identifier `current_pid`, the one running the caller.
    pub fn new(module: Module, current_pid: u32) -> (r: Result<LocalModule, ProcessErrorKind>)
        ensures
            module.spec_parent().pid == current_pid ==> (r matches Ok(l) && l.module() == module),
            module.spec_parent().pid != current_pid ==> (r matches Err(ProcessErrorKind::ModuleNotLocal)),
    {
        if module.is_local(current_pid) {
            Ok(LocalModule(module))
        } else {
            Err(ProcessErrorKind::ModuleNotLocal)
        }
    }

    /// The module.
    pub fn as_module(&self) -> (r: &Module)
        ensures
            *r == self.module(),
    {
        &self.0
    }

    /// The module, giving up the local view of it.
    pub fn into_module(self) -> (r: Module)
        ensures
            r == self.module(),
    {
        self.0
    }

    /// The address of the first match of `pattern` in `image`, the module's
    /// bytes.
    pub fn scan_for_pattern(&self, image: &[u8], pattern: &str) -> (r: Result<usize, ScanError>)
        requires
            self.module().fits(),
            image@.len() == self.module().spec_entry().base_size,
        ensures
            parse_signature(pattern@) is None ==> r == Err::<usize, ScanError>(ScanError::InvalidPattern),
            parse_signature(pattern@) matches Some(sig) ==> found_address(
                image@,
                sig,
                self.module().spec_entry().base_address as int,
                r,
            ),
    {
        match scan_first(image, pattern) {
            Err(e) => Err(e),
            Ok(None) => Err(ScanError::NotFound),
            Ok(Some(offset)) => Ok(self.0.absolute_address(offset)),
        }
    }

    /// The address of the first match of `pattern` in `image`, the module's
    /// bytes, at or after `after`, an address inside the module or just past
    /// its end.
    pub fn scan_for_pattern_after(&self, image: &[u8], after: usize, pattern: &str) -> (r: Result<usize, ScanError>)
        requires
            self.module().fits(),
            image@.len() == self.module().spec_entry().base_size,
            self.module().spec_entry().base_address <= after,
            after <= self.module().spec_entry().base_address + self.module().spec_entry().base_size,
        ensures
            parse_signature(pattern@) is None ==> r == Err::<usize, ScanError>(ScanError::InvalidPattern),
            parse_signature(pattern@) matches Some(sig) ==> found_address(
                image@.subrange(after - self.module().spec_entry().base_address, image@.len() as int),
                sig,
                after as int,
                r,
            ),
    {
        let start = self.0.relative_offset(after);
        let rest = slice_subrange(image, start, image.len());
        match scan_first(rest, pattern) {
            Err(e) => Err(e),
            Ok(None) => Err(ScanError::NotFound),
            Ok(Some(offset)) => Ok(self.0.absolute_address(start + offset)),
        }
    }

    /// The addresses of every match of `pattern` in `image`, the module's
    /// bytes, in increasing order.
    pub fn scan_for_all_pattern(&self, image: &[u8], pattern: &str) -> (r: Result<Vec<usize>, ScanError>)
        requires
            self.module().fits(),
            image@.len() == self.module().spec_entry().base_size,
        ensures
            parse_signature(pattern@) is None ==> r == Err::<Vec<usize>, ScanError>(
                ScanError::InvalidPattern,
            ),
            parse_signature(pattern@) matches Some(sig) ==> r matches Ok(v) && v@ == all_matches(
                image@,
                sig,
            ).map_values(|o: usize| (self.module().spec_entry().base_address + o) as usize),
    {
        let offsets = match scan_all(image, pattern) {
            Err(e) => {
                return Err(e);
            },
            Ok(v) => v,
        };
        let ghost sig = parse_signature(pattern@)->Some_0;
        let mut out: Vec<usize> = Vec::new();
        let mut i: usize = 0;
        while i < offsets.len()
            invariant
                i <= offsets@.len(),
                offsets@ == all_matches(image@, sig),
                self.module().fits(),
                image@.len() == self.module().spec_entry().base_size,
                out@ == offsets@.take(i as int).map_values(
                    |o: usize| (self.module().spec_entry().base_address + o) as usize,
                ),
            decreases offsets@.len() - i,
        {
            proof {
                crate::pattern::lemma_all_matches_in_bounds(image@, sig, offsets@, i as int);
            }
            out.push(self.0.absolute_address(offsets[i]));
            assert(offsets@.take(i + 1) =~= offsets@.take(i as int).push(offsets@[i as int]));
            i = i + 1;
        }
        assert(offsets@.take(i as int) =~= offsets@);
        Ok(out)
    }
}

} // verus!
