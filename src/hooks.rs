//! Inline diversion of two functions on a 32-bit target: the first
//! `hook_size` bytes of each are replaced by a relative jump to a wrapper,
//! padded with no-ops, and a trampoline holds the displaced bytes followed by
//! a jump back past them.
//!
//! The bytes of a hook site are handed in as a slice; making the page
//! writable, allocating the trampoline and flushing the instruction cache are
//! the caller's part.

use vstd::bytes::*;
use vstd::prelude::*;

verus! {

/// Opcode of `jmp rel32`.
pub const JMP_REL32: u8 = 0xE9;

/// Opcode of the one-byte `nop`.
pub const NOP: u8 = 0x90;

/// Length of a `jmp rel32` instruction.
pub const JMP_SIZE: usize = 5;

/// Smallest hook size: room for one jump.
pub const MIN_HOOK_SIZE: usize = 5;

/// Largest hook size.
pub const MAX_HOOK_SIZE: usize = 16;

/// Bytes allocated for each trampoline.
pub const TRAMPOLINE_SIZE: usize = 64;

/// Addresses wrap at 2^32 on the target.
pub open spec fn addr(x: int) -> int {
    x % 0x1_0000_0000
}

/// Displacement of a relative jump whose next instruction is at `next` and
/// whose destination is `dest`.
pub open spec fn rel32(next: int, dest: int) -> u32 {
    addr(dest - next + 0x1_0000_0000) as u32
}

/// Where a `jmp rel32` placed at `at` with displacement `rel` goes.
pub open spec fn jump_destination(at: int, rel: u32) -> int {
    addr(at + JMP_SIZE + rel)
}

/// A `jmp rel32` placed at `at` that lands on `dest`.
pub open spec fn jump_image(at: int, dest: int) -> Seq<u8> {
    seq![JMP_REL32] + spec_u32_to_le_bytes(rel32(at + JMP_SIZE, dest))
}

/// The `size` bytes written over a hook site at `target`: a jump to
/// `wrapper`, then no-ops.
pub open spec fn patch_image(target: u32, wrapper: u32, size: nat) -> Seq<u8> {
    jump_image(target as int, wrapper as int) + Seq::new((size - JMP_SIZE) as nat, |i: int| NOP)
}

/// A trampoline at `trampoline` for a site at `target` whose displaced bytes
/// are `prologue`: those bytes, then a jump to the first byte after them.
pub open spec fn trampoline_image(prologue: Seq<u8>, target: u32, trampoline: u32) -> Seq<u8> {
    prologue + jump_image(
        trampoline as int + prologue.len(),
        target as int + prologue.len(),
    )
}

/// The displacement of a jump whose next instruction is at `next`, to `dest`.
pub fn jump_displacement(next: u32, dest: u32) -> (rel: u32)
    ensures
        rel == rel32(next as int, dest as int),
{
    if dest >= next {
        dest - next
    } else {
        (0x1_0000_0000u64 - next as u64 + dest as u64) as u32
    }
}

/// Encodes a `jmp rel32` placed at `at` that lands on `dest`.
pub fn encode_jump(at: u32, dest: u32) -> (out: Vec<u8>)
    ensures
        out@ == jump_image(at as int, dest as int),
        out@.len() == JMP_SIZE,
{
    let next = (at as u64 + JMP_SIZE as u64) % 0x1_0000_0000u64;
    let rel = jump_displacement(next as u32, dest);
    proof {
        assert(rel32(next as int, dest as int) == rel32(at + JMP_SIZE, dest as int)) by {
            assert(addr(dest - next + 0x1_0000_0000) == addr(dest - (at + JMP_SIZE)
                + 0x1_0000_0000)) by (nonlinear_arith)
                requires
                    next == (at + JMP_SIZE) % 0x1_0000_0000,
                    0 <= at < 0x1_0000_0000,
            ;
        }
    }
    let mut out: Vec<u8> = Vec::new();
    out.push(JMP_REL32);
    let mut tail = u32_to_le_bytes(rel);
    out.append(&mut tail);
    proof {
        assert(out@ =~= jump_image(at as int, dest as int));
    }
    out
}

/// The displacement encoded for a jump from `at` to `dest` makes the jump
/// land on `dest`.
pub proof fn lemma_jump_lands(at: u32, dest: u32)
    ensures
        jump_destination(at as int, rel32(at + JMP_SIZE, dest as int)) == dest,
{
    let a = at as int;
    let d = dest as int;
    assert(addr(a + 5 + addr(d - (a + 5) + 0x1_0000_0000)) == d) by (nonlinear_arith)
        requires
            0 <= a < 0x1_0000_0000,
            0 <= d < 0x1_0000_0000,
    ;
}

/// The bytes written over a hook site.
pub fn encode_patch(target: u32, wrapper: u32, size: usize) -> (out: Vec<u8>)
    requires
        MIN_HOOK_SIZE <= size <= MAX_HOOK_SIZE,
    ensures
        out@ == patch_image(target, wrapper, size as nat),
        out@.len() == size,
{
    let mut out = encode_jump(target, wrapper);
    let mut i: usize = JMP_SIZE;
    while i < size
        invariant
            JMP_SIZE <= i <= size,
            out@.len() == i,
            out@ == jump_image(target as int, wrapper as int) + Seq::new(
                (i - JMP_SIZE) as nat,
                |k: int| NOP,
            ),
        decreases size - i,
    {
        out.push(NOP);
        proof {
            assert(out@ =~= jump_image(target as int, wrapper as int) + Seq::new(
                (i + 1 - JMP_SIZE) as nat,
                |k: int| NOP,
            ));
        }
        i = i + 1;
    }
    out
}

/// The trampoline for a site at `target` with displaced bytes `prologue`,
/// to be placed at `trampoline`.
pub fn create_trampoline(prologue: &[u8], target: u32, trampoline: u32) -> (out: Vec<u8>)
    requires
        MIN_HOOK_SIZE <= prologue@.len() <= MAX_HOOK_SIZE,
    ensures
        out@ == trampoline_image(prologue@, target, trampoline),
        out@.len() <= TRAMPOLINE_SIZE,
{
    let n = prologue.len();
    let mut out: Vec<u8> = Vec::new();
    let mut i: usize = 0;
    while i < n
        invariant
            n == prologue@.len(),
            i <= n,
            out@ == prologue@.take(i as int),
        decreases n - i,
    {
        out.push(prologue[i]);
        proof {
            assert(out@ =~= prologue@.take(i + 1));
        }
        i = i + 1;
    }
    let at = ((trampoline as u64 + n as u64) % 0x1_0000_0000u64) as u32;
    let dest = ((target as u64 + n as u64) % 0x1_0000_0000u64) as u32;
    let mut jump = encode_jump(at, dest);
    proof {
        let t = trampoline as int;
        let g = target as int;
        let len = n as int;
        assert(rel32(at + JMP_SIZE, dest as int) == rel32(t + len + JMP_SIZE, g + len)) by {
            assert(addr(dest - (at + JMP_SIZE) + 0x1_0000_0000) == addr((g + len) - (t + len
                + JMP_SIZE) + 0x1_0000_0000)) by (nonlinear_arith)
                requires
                    at == (t + len) % 0x1_0000_0000,
                    dest == (g + len) % 0x1_0000_0000,
                    0 <= t < 0x1_0000_0000,
                    0 <= g < 0x1_0000_0000,
                    0 <= len <= 16,
            ;
        }
        assert(prologue@.take(n as int) =~= prologue@);
    }
    out.append(&mut jump);
    proof {
        assert(out@ =~= trampoline_image(prologue@, target, trampoline));
    }
    out
}

/// The jump at the end of a trampoline lands on the first byte after the
/// overwritten range of the hook site.
pub proof fn lemma_trampoline_returns_past_site(prologue: Seq<u8>, target: u32, trampoline: u32)
    requires
        MIN_HOOK_SIZE <= prologue.len() <= MAX_HOOK_SIZE,
    ensures
        trampoline_image(prologue, target, trampoline).subrange(0, prologue.len() as int)
            == prologue,
        trampoline_image(prologue, target, trampoline)[prologue.len() as int] == JMP_REL32,
        jump_destination(
            trampoline as int + prologue.len(),
            spec_u32_from_le_bytes(
                trampoline_image(prologue, target, trampoline).subrange(
                    prologue.len() as int + 1,
                    prologue.len() as int + JMP_SIZE,
                ),
            ),
        ) == addr(target as int + prologue.len()),
{
    let n = prologue.len() as int;
    let t = trampoline as int;
    let g = target as int;
    let img = trampoline_image(prologue, target, trampoline);
    let rel = rel32(t + n + JMP_SIZE, g + n);
    lemma_auto_spec_u32_to_from_le_bytes();
    assert(img.subrange(0, n) =~= prologue);
    assert(img.subrange(n + 1, n + JMP_SIZE) =~= spec_u32_to_le_bytes(rel));
    assert(addr(t + n + 5 + addr((g + n) - (t + n + 5) + 0x1_0000_0000)) == addr(g + n))
        by (nonlinear_arith)
        requires
            0 <= t < 0x1_0000_0000,
            0 <= g < 0x1_0000_0000,
            0 <= n <= 16,
    ;
}

/// Model of a hook slot.
pub struct SlotView {
    pub target: u32,
    pub hook_size: nat,
    pub saved: Seq<u8>,
    pub trampoline: u32,
    pub installed: bool,
}

/// Agent-side state of one diverted function.
pub struct HookSlot {
    /// Address of the hook site.
    pub target: u32,
    /// Bytes overwritten at the site.
    pub hook_size: usize,
    /// The original bytes of the site while the hook is installed.
    pub saved: Vec<u8>,
    /// Address of the trampoline while the hook is installed.
    pub trampoline: u32,
    /// The site currently holds the jump to the wrapper.
    pub installed: bool,
}

impl View for HookSlot {
    type V = SlotView;

    open spec fn view(&self) -> SlotView {
        SlotView {
            target: self.target,
            hook_size: self.hook_size as nat,
            saved: self.saved@,
            trampoline: self.trampoline,
            installed: self.installed,
        }
    }
}

/// Slot and site after installing: a no-op on an installed slot; else the
/// original bytes are saved, the site holds the jump to `wrapper`, and the
/// slot records the trampoline.
pub open spec fn after_install(s: SlotView, code: Seq<u8>, trampoline: u32, wrapper: u32) -> (
    SlotView,
    Seq<u8>,
) {
    if s.installed {
        (s, code)
    } else {
        (
            SlotView { saved: code, trampoline, installed: true, ..s },
            patch_image(s.target, wrapper, s.hook_size),
        )
    }
}

/// Slot and site after uninstalling: a no-op on a slot that is not
/// installed; else the site gets its saved bytes back.
pub open spec fn after_uninstall(s: SlotView, code: Seq<u8>) -> (SlotView, Seq<u8>) {
    if s.installed {
        (SlotView { installed: false, ..s }, s.saved)
    } else {
        (s, code)
    }
}

impl HookSlot {
    /// A slot that is not installed.
    pub fn new(target: u32, hook_size: usize) -> (slot: HookSlot)
        requires
            MIN_HOOK_SIZE <= hook_size <= MAX_HOOK_SIZE,
        ensures
            slot.wf(),
            slot@.target == target,
            slot@.hook_size == hook_size,
            !slot@.installed,
    {
        HookSlot { target, hook_size, saved: Vec::new(), trampoline: 0, installed: false }
    }

    /// The hook size is in range and an installed slot holds as many saved
    /// bytes as it overwrote.
    pub open spec fn wf(&self) -> bool {
        &&& MIN_HOOK_SIZE <= self.hook_size <= MAX_HOOK_SIZE
        &&& self.installed ==> self.saved@.len() == self.hook_size
    }

    /// Diverts the site whose first `hook_size` bytes are `code` to `wrapper`
    /// and returns the trampoline image to place at `trampoline`.  On an
    /// installed slot it does nothing and returns `None`.
    pub fn install(&mut self, code: &mut [u8], trampoline: u32, wrapper: u32) -> (r: Option<
        Vec<u8>,
    >)
        requires
            old(self).wf(),
            old(code)@.len() == old(self).hook_size,
        ensures
            final(self).wf(),
            final(code)@.len() == old(code)@.len(),
            (final(self)@, final(code)@) == after_install(
                old(self)@,
                old(code)@,
                trampoline,
                wrapper,
            ),
            old(self).installed ==> r is None,
            !old(self).installed ==> (r matches Some(t) && t@ == trampoline_image(
                old(code)@,
                old(self).target,
                trampoline,
            )),
    {
        if self.installed {
            return None;
        }
        let mut saved: Vec<u8> = Vec::new();
        let mut i: usize = 0;
        while i < code.len()
            invariant
                i <= code@.len(),
                saved@ == code@.take(i as int),
            decreases code@.len() - i,
        {
            saved.push(code[i]);
            proof {
                assert(saved@ =~= code@.take(i + 1));
            }
            i = i + 1;
        }
        proof {
            assert(code@.take(code@.len() as int) =~= code@);
        }
        let image = create_trampoline(code, self.target, trampoline);
        let patch = encode_patch(self.target, wrapper, self.hook_size);
        let mut k: usize = 0;
        while k < code.len()
            invariant
                code@.len() == patch@.len(),
                k <= code@.len(),
                forall|j: int| 0 <= j < k ==> code@[j] == patch@[j],
            decreases code@.len() - k,
        {
            code[k] = patch[k];
            k = k + 1;
        }
        proof {
            assert(code@ =~= patch@);
        }
        self.saved = saved;
        self.trampoline = trampoline;
        self.installed = true;
        Some(image)
    }

    /// Puts the saved bytes back on the site.  On a slot that is not
    /// installed it does nothing.
    pub fn uninstall(&mut self, code: &mut [u8])
        requires
            old(self).wf(),
            old(code)@.len() == old(self).hook_size,
        ensures
            final(self).wf(),
            (final(self)@, final(code)@) == after_uninstall(old(self)@, old(code)@),
    {
        if !self.installed {
            return ;
        }
        let mut k: usize = 0;
        while k < code.len()
            invariant
                code@.len() == self.saved@.len(),
                k <= code@.len(),
                forall|j: int| 0 <= j < k ==> code@[j] == self.saved@[j],
            decreases code@.len() - k,
        {
            code[k] = self.saved[k];
            k = k + 1;
        }
        proof {
            assert(code@ =~= self.saved@);
        }
        self.installed = false;
    }
}

/// Installing and then uninstalling a slot gives the site its original
/// bytes back exactly; installing an installed slot changes nothing.
pub proof fn lemma_install_uninstall(s: SlotView, code: Seq<u8>, trampoline: u32, wrapper: u32)
    requires
        !s.installed,
    ensures
        after_uninstall(
            after_install(s, code, trampoline, wrapper).0,
            after_install(s, code, trampoline, wrapper).1,
        ).1 == code,
        !after_uninstall(
            after_install(s, code, trampoline, wrapper).0,
            after_install(s, code, trampoline, wrapper).1,
        ).0.installed,
        after_install(
            after_install(s, code, trampoline, wrapper).0,
            after_install(s, code, trampoline, wrapper).1,
            trampoline,
            wrapper,
        ) == after_install(s, code, trampoline, wrapper),
{
}

/// A hook site whose trampoline could not be allocated or whose page could
/// not be made writable.
#[derive(Clone, Copy, Debug, PartialEq, Eq, Structural)]
pub enum HookError {
    /// The outbound (send) site.
    SendSite,
    /// The inbound (receive) site.
    RecvSite,
}

/// The two diverted functions: outbound `send` and inbound `recv`.
pub struct HookPair {
    pub send: HookSlot,
    pub recv: HookSlot,
}

impl View for HookPair {
    type V = (SlotView, SlotView);

    open spec fn view(&self) -> (SlotView, SlotView) {
        (self.send@, self.recv@)
    }
}

impl HookPair {
    /// Both slots are well formed and installed together.
    pub open spec fn wf(&self) -> bool {
        &&& self.send.wf()
        &&& self.recv.wf()
        &&& self.send.installed == self.recv.installed
    }

    /// Both diversions are in place.
    pub open spec fn active(&self) -> bool {
        self.send.installed && self.recv.installed
    }

    /// Slots for a send site and a receive site; nothing is installed yet.
    pub fn new(send_target: u32, send_size: usize, recv_target: u32, recv_size: usize) -> (pair:
        HookPair)
        requires
            MIN_HOOK_SIZE <= send_size <= MAX_HOOK_SIZE,
            MIN_HOOK_SIZE <= recv_size <= MAX_HOOK_SIZE,
        ensures
            pair.wf(),
            !pair.active(),
            pair.send@.target == send_target && pair.send@.hook_size == send_size,
            pair.recv@.target == recv_target && pair.recv@.hook_size == recv_size,
    {
        HookPair {
            send: HookSlot::new(send_target, send_size),
            recv: HookSlot::new(recv_target, recv_size),
        }
    }
}

/// `true` when both diversions are in place.
pub fn hooks_active(pair: &HookPair) -> (r: bool)
    requires
        pair.wf(),
    ensures
        r == pair.active(),
{
    pair.send.installed
}

/// Installs both diversions.  `send_code` and `recv_code` are the first
/// `hook_size` bytes of each site, made writable by the caller; a trampoline
/// address of `None` means that its allocation or the protection change at
/// that site failed.  On success the two trampoline images to place are
/// returned.  When the pair is already installed nothing happens
/// (`Ok(None)`).  When the receive site fails after the send site was
/// patched, the send site is rolled back, so a failure leaves both sites
/// with their original bytes.
pub fn install_hooks(
    pair: &mut HookPair,
    send_code: &mut [u8],
    send_trampoline: Option<u32>,
    send_wrapper: u32,
    recv_code: &mut [u8],
    recv_trampoline: Option<u32>,
    recv_wrapper: u32,
) -> (r: Result<Option<(Vec<u8>, Vec<u8>)>, HookError>)
    requires
        old(pair).wf(),
        old(send_code)@.len() == old(pair).send.hook_size,
        old(recv_code)@.len() == old(pair).recv.hook_size,
    ensures
        final(pair).wf(),
        old(pair).active() ==> r is Ok && r->Ok_0 is None && final(pair)@ == old(pair)@
            && final(send_code)@ == old(send_code)@ && final(recv_code)@ == old(recv_code)@,
        !old(pair).active() && send_trampoline is None ==> r == Err::<
            Option<(Vec<u8>, Vec<u8>)>,
            HookError,
        >(HookError::SendSite) && final(pair)@ == old(pair)@ && final(send_code)@ == old(
            send_code,
        )@ && final(recv_code)@ == old(recv_code)@,
        !old(pair).active() && send_trampoline is Some && recv_trampoline is None ==> r == Err::<
            Option<(Vec<u8>, Vec<u8>)>,
            HookError,
        >(HookError::RecvSite) && !final(pair).active() && final(send_code)@ == old(send_code)@
            && final(recv_code)@ == old(recv_code)@,
        !old(pair).active() && send_trampoline is Some && recv_trampoline is Some ==> {
            &&& final(pair).active()
            &&& (final(pair).send@, final(send_code)@) == after_install(
                old(pair).send@,
                old(send_code)@,
                send_trampoline->0,
                send_wrapper,
            )
            &&& (final(pair).recv@, final(recv_code)@) == after_install(
                old(pair).recv@,
                old(recv_code)@,
                recv_trampoline->0,
                recv_wrapper,
            )
            &&& r matches Ok(Some((st, rt))) && st@ == trampoline_image(
                old(send_code)@,
                old(pair).send.target,
                send_trampoline->0,
            ) && rt@ == trampoline_image(
                old(recv_code)@,
                old(pair).recv.target,
                recv_trampoline->0,
            )
        },
{
    if pair.send.installed {
        return Ok(None);
    }
    let st = match send_trampoline {
        Some(t) => t,
        None => {
            return Err(HookError::SendSite);
        },
    };
    let send_image = match pair.send.install(send_code, st, send_wrapper) {
        Some(image) => image,
        None => {
            return Err(HookError::SendSite);
        },
    };
    let rt = match recv_trampoline {
        Some(t) => t,
        None => {
            pair.send.uninstall(send_code);
            return Err(HookError::RecvSite);
        },
    };
    let recv_image = match pair.recv.install(recv_code, rt, recv_wrapper) {
        Some(image) => image,
        None => {
            pair.send.uninstall(send_code);
            return Err(HookError::RecvSite);
        },
    };
    Ok(Some((send_image, recv_image)))
}

/// Removes both diversions, putting the saved bytes back on each site.  On
/// a pair that is not installed it does nothing, so it may be called again.
pub fn uninstall_hooks(pair: &mut HookPair, send_code: &mut [u8], recv_code: &mut [u8])
    requires
        old(pair).wf(),
        old(send_code)@.len() == old(pair).send.hook_size,
        old(recv_code)@.len() == old(pair).recv.hook_size,
    ensures
        final(pair).wf(),
        !final(pair).active(),
        (final(pair).send@, final(send_code)@) == after_uninstall(
            old(pair).send@,
            old(send_code)@,
        ),
        (final(pair).recv@, final(recv_code)@) == after_uninstall(
            old(pair).recv@,
            old(recv_code)@,
        ),
{
    pair.recv.uninstall(recv_code);
    pair.send.uninstall(send_code);
}

} // verus!
