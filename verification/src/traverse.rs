//! The traversal engine: a work queue of pending addresses and a visited map
//! from address to decode outcome. Starting from the entry address, each
//! pending address is decoded once, its control-flow successors are enqueued,
//! and the loop drains when every reachable address has been visited.
//!
//! A decode failure is recorded against its address and the traversal
//! continues along other queued paths; errors are never silently dropped,
//! and an address is never re-decoded.

use crate::decode::decode_instruction;
use crate::decode::decode_spec;
use crate::isa::DecodeError;
use crate::isa::Instruction;
use crate::isa::Mnemonic;
use crate::isa::Operand;
use vstd::prelude::*;
use vstd::set_lib::lemma_int_range;
use vstd::set_lib::lemma_len_subset;
use vstd::set_lib::set_int_range;

verus! {

/// What one visit records: the decoded instruction, or the decode failure at
/// that address.
pub type DecodeOutcome = Result<Instruction, DecodeError>;

/// The fixed entry address of the target ISA, the default seed of a
/// traversal.
pub const ENTRY_ADDRESS: usize = 0x100;

/// The mathematical contents of a visited-map entry list, newest entry
/// winning (entries with distinct keys make the order irrelevant).
pub open spec fn map_of(s: Seq<(usize, DecodeOutcome)>) -> Map<int, DecodeOutcome>
    decreases s.len(),
{
    if s.len() == 0 {
        Map::empty()
    } else {
        map_of(s.drop_last()).insert(s.last().0 as int, s.last().1)
    }
}

/// No two entries share an address.
pub open spec fn keys_distinct(s: Seq<(usize, DecodeOutcome)>) -> bool {
    forall|i: int, j: int| 0 <= i < j < s.len() ==> (#[trigger] s[i]).0 != (#[trigger] s[j]).0
}

proof fn lemma_map_of_dom(s: Seq<(usize, DecodeOutcome)>)
    ensures
        map_of(s).dom().finite(),
        forall|k: int|
            #[trigger] map_of(s).dom().contains(k) <==> (exists|i: int|
                0 <= i < s.len() && (#[trigger] s[i]).0 as int == k),
    decreases s.len(),
{
    if s.len() == 0 {
        assert(map_of(s).dom() =~= Set::<int>::empty());
    } else {
        let dl = s.drop_last();
        lemma_map_of_dom(dl);
        assert forall|k: int| #[trigger] map_of(s).dom().contains(k) implies (exists|i: int|
            0 <= i < s.len() && (#[trigger] s[i]).0 as int == k) by {
            if k == s.last().0 as int {
                assert(s[s.len() - 1].0 as int == k);
            } else {
                let i = choose|i: int| 0 <= i < dl.len() && (#[trigger] dl[i]).0 as int == k;
                assert(s[i].0 as int == k);
            }
        }
        assert forall|k: int|
            (exists|i: int| 0 <= i < s.len() && (#[trigger] s[i]).0 as int == k) implies #[trigger]
            map_of(s).dom().contains(k) by {
            let i = choose|i: int| 0 <= i < s.len() && (#[trigger] s[i]).0 as int == k;
            if i < s.len() - 1 {
                assert(dl[i].0 as int == k);
            }
        }
    }
}

proof fn lemma_map_of_len(s: Seq<(usize, DecodeOutcome)>)
    requires
        keys_distinct(s),
    ensures
        map_of(s).dom().len() == s.len(),
    decreases s.len(),
{
    if s.len() > 0 {
        let dl = s.drop_last();
        lemma_map_of_dom(dl);
        lemma_map_of_len(dl);
        assert(!map_of(dl).dom().contains(s.last().0 as int));
    }
}

proof fn lemma_map_of_get(s: Seq<(usize, DecodeOutcome)>)
    requires
        keys_distinct(s),
    ensures
        forall|i: int|
            0 <= i < s.len() ==> map_of(s)[(#[trigger] s[i]).0 as int] == s[i].1,
    decreases s.len(),
{
    if s.len() > 0 {
        let dl = s.drop_last();
        lemma_map_of_get(dl);
        assert forall|i: int|
            0 <= i < s.len() implies map_of(s)[(#[trigger] s[i]).0 as int] == s[i].1 by {
            if i < s.len() - 1 {
                assert(dl[i] == s[i]);
                assert(s[i].0 != s[s.len() - 1].0);
            }
        }
    }
}

/// The visited map: the traversal's output artifact, mapping each visited
/// address to the outcome of decoding it. Keys are unique; an address is
/// inserted at most once.
#[derive(Debug, PartialEq, Eq)]
pub struct VisitedMap {
    entries: Vec<(usize, DecodeOutcome)>,
}

impl View for VisitedMap {
    type V = Map<int, DecodeOutcome>;

    closed spec fn view(&self) -> Map<int, DecodeOutcome> {
        map_of(self.entries@)
    }
}

impl VisitedMap {
    /// No address is recorded twice.
    pub closed spec fn wf(&self) -> bool {
        keys_distinct(self.entries@)
    }

    /// An empty visited map.
    pub fn new() -> (r: VisitedMap)
        ensures
            r.wf(),
            r@ == Map::<int, DecodeOutcome>::empty(),
    {
        VisitedMap { entries: Vec::new() }
    }

    /// Whether `address` has been visited.
    pub fn contains_key(&self, address: usize) -> (r: bool)
        ensures
            r == self@.dom().contains(address as int),
    {
        proof {
            lemma_map_of_dom(self.entries@);
        }
        let mut i: usize = 0;
        while i < self.entries.len()
            invariant
                i <= self.entries@.len(),
                forall|j: int| 0 <= j < i ==> (#[trigger] self.entries@[j]).0 != address,
                self@.dom().contains(address as int) <==> (exists|j: int|
                    0 <= j < self.entries@.len() && (#[trigger] self.entries@[j]).0 as int
                        == address as int),
            decreases self.entries@.len() - i,
        {
            if self.entries[i].0 == address {
                return true;
            }
            i = i + 1;
        }
        false
    }

    /// The recorded outcome at `address`, if it has been visited.
    pub fn get(&self, address: usize) -> (r: Option<DecodeOutcome>)
        requires
            self.wf(),
        ensures
            match r {
                Some(outcome) => self@.dom().contains(address as int) && self@[address as int]
                    == outcome,
                None => !self@.dom().contains(address as int),
            },
    {
        proof {
            lemma_map_of_dom(self.entries@);
            lemma_map_of_get(self.entries@);
        }
        let mut i: usize = 0;
        while i < self.entries.len()
            invariant
                i <= self.entries@.len(),
                self.wf(),
                forall|j: int| 0 <= j < i ==> (#[trigger] self.entries@[j]).0 != address,
                self@.dom().contains(address as int) <==> (exists|j: int|
                    0 <= j < self.entries@.len() && (#[trigger] self.entries@[j]).0 as int
                        == address as int),
                forall|j: int|
                    0 <= j < self.entries@.len() ==> self@[(#[trigger] self.entries@[j]).0 as int]
                        == self.entries@[j].1,
            decreases self.entries@.len() - i,
        {
            let entry = self.entries[i];
            if entry.0 == address {
                return Some(entry.1);
            }
            i = i + 1;
        }
        None
    }

    /// Record the outcome of a first visit.
    pub fn insert(&mut self, address: usize, outcome: DecodeOutcome)
        requires
            old(self).wf(),
            !old(self)@.dom().contains(address as int),
        ensures
            final(self).wf(),
            final(self)@ == old(self)@.insert(address as int, outcome),
    {
        proof {
            lemma_map_of_dom(self.entries@);
        }
        self.entries.push((address, outcome));
        proof {
            assert(self.entries@.drop_last() =~= old(self).entries@);
            assert(self.entries@.last() == (address, outcome));
        }
    }

    /// How many addresses have been visited.
    pub fn num_entries(&self) -> (r: usize)
        requires
            self.wf(),
        ensures
            r == self@.dom().len(),
    {
        proof {
            lemma_map_of_len(self.entries@);
        }
        self.entries.len()
    }

    /// The `i`-th recorded entry, in discovery order.
    pub fn entry_at(&self, i: usize) -> (r: (usize, DecodeOutcome))
        requires
            self.wf(),
            i < self@.dom().len(),
        ensures
            self@.dom().contains(r.0 as int),
            self@[r.0 as int] == r.1,
    {
        proof {
            lemma_map_of_dom(self.entries@);
            lemma_map_of_get(self.entries@);
            lemma_map_of_len(self.entries@);
        }
        self.entries[i]
    }
}

/// The statically known successor addresses of a decoded instruction: one
/// for a sequential instruction or an unconditional jump, two for a
/// conditional jump, none for a jump whose target is held in a register.
pub open spec fn succ_seq(i: Instruction, pos: int) -> Seq<int> {
    if i.mnemonic is Jp {
        match i.op1 {
            Some(Operand::Imm16(target)) => seq![target as int],
            Some(Operand::Cond(_)) => match i.op2 {
                Some(Operand::Imm16(target)) => seq![target as int, pos + i.encoded_length],
                _ => seq![pos + i.encoded_length],
            },
            _ => seq![],
        }
    } else {
        seq![pos + i.encoded_length]
    }
}

/// One control-flow edge: the instruction at `a` decodes and `b` is among
/// its statically known successors.
pub open spec fn step(img: Seq<u8>, a: int, b: int) -> bool {
    decode_spec(img, a) matches Ok(i) && succ_seq(i, a).contains(b)
}

/// `p` walks control-flow edges from `entry` through `img`.
pub open spec fn is_path(img: Seq<u8>, entry: int, p: Seq<int>) -> bool {
    &&& p.len() >= 1
    &&& p[0] == entry
    &&& forall|i: int| 0 <= i < p.len() - 1 ==> step(img, #[trigger] p[i], p[i + 1])
}

/// `a` lies on some control-flow path from `entry`.
pub open spec fn reachable(img: Seq<u8>, entry: int, a: int) -> bool {
    exists|p: Seq<int>| is_path(img, entry, p) && p.last() == a
}

proof fn lemma_entry_reachable(img: Seq<u8>, entry: int)
    ensures
        reachable(img, entry, entry),
{
    let p: Seq<int> = seq![entry];
    assert(is_path(img, entry, p) && p.last() == entry);
}

proof fn lemma_step_reachable(img: Seq<u8>, entry: int, a: int, b: int)
    requires
        reachable(img, entry, a),
        step(img, a, b),
    ensures
        reachable(img, entry, b),
{
    let p = choose|p: Seq<int>| is_path(img, entry, p) && p.last() == a;
    let q = p.push(b);
    assert(q[0] == entry);
    assert forall|i: int| 0 <= i < q.len() - 1 implies step(img, #[trigger] q[i], q[i + 1]) by {
        if i < p.len() - 1 {
            assert(q[i] == p[i] && q[i + 1] == p[i + 1]);
        } else {
            assert(q[i] == p.last() && q[i + 1] == b);
        }
    }
    assert(is_path(img, entry, q) && q.last() == b);
}

proof fn lemma_closed_contains_path(
    img: Seq<u8>,
    entry: int,
    m: Map<int, DecodeOutcome>,
    p: Seq<int>,
)
    requires
        m.dom().contains(entry),
        forall|k: int, s: int|
            m.dom().contains(k) && #[trigger] step(img, k, s) ==> m.dom().contains(s),
        is_path(img, entry, p),
    ensures
        m.dom().contains(p.last()),
    decreases p.len(),
{
    if p.len() > 1 {
        let q = p.drop_last();
        assert(forall|i: int| 0 <= i < q.len() - 1 ==> step(img, #[trigger] q[i], q[i + 1]));
        lemma_closed_contains_path(img, entry, m, q);
        assert(step(img, p[p.len() - 2], p[p.len() - 1]));
        assert(q.last() == p[p.len() - 2]);
    }
}

/// What `disassemble` promises of its result `m`: the entry address is
/// visited; every visited address is mapped to exactly the outcome of
/// decoding it; the visited set is closed under control-flow edges; and only
/// addresses reachable from the entry are visited.
pub open spec fn valid_disassembly(img: Seq<u8>, entry: int, m: Map<int, DecodeOutcome>) -> bool {
    &&& m.dom().contains(entry)
    &&& forall|k: int| #[trigger] m.dom().contains(k) ==> m[k] == decode_spec(img, k)
    &&& forall|k: int, s: int|
        m.dom().contains(k) && #[trigger] step(img, k, s) ==> m.dom().contains(s)
    &&& forall|k: int| #[trigger] m.dom().contains(k) ==> reachable(img, entry, k)
}

/// Disassembly is deterministic: any two maps that satisfy the disassembly
/// contract for the same image and entry are equal, so the traversal's
/// work-queue pop order cannot affect the result, and running it twice
/// yields the same visited map.
pub proof fn lemma_disassembly_deterministic(
    img: Seq<u8>,
    entry: int,
    m1: Map<int, DecodeOutcome>,
    m2: Map<int, DecodeOutcome>,
)
    requires
        valid_disassembly(img, entry, m1),
        valid_disassembly(img, entry, m2),
    ensures
        m1 == m2,
{
    assert forall|k: int| #[trigger] m1.dom().contains(k) implies m2.dom().contains(k) by {
        let p = choose|p: Seq<int>| is_path(img, entry, p) && p.last() == k;
        lemma_closed_contains_path(img, entry, m2, p);
    }
    assert forall|k: int| #[trigger] m2.dom().contains(k) implies m1.dom().contains(k) by {
        let p = choose|p: Seq<int>| is_path(img, entry, p) && p.last() == k;
        lemma_closed_contains_path(img, entry, m1, p);
    }
    assert(m1.dom() =~= m2.dom());
    assert(m1 =~= m2);
}

/// The control-flow effect of a decoded instruction at a position: its
/// statically known successor addresses, classified.
#[derive(Clone, Copy, Debug, PartialEq, Eq)]
pub enum ControlFlowEffect {
    /// Execution falls through to the next instruction.
    Sequential { next: usize },
    /// A jump with a single statically known target.
    Unconditional { target: usize },
    /// A conditional jump: both the target and the fallthrough may run.
    Conditional { target: usize, fallthrough: usize },
    /// No statically known successor (a jump through a register).
    Terminal,
}

/// The successor addresses an effect stands for.
pub open spec fn effect_succs(e: ControlFlowEffect) -> Seq<int> {
    match e {
        ControlFlowEffect::Sequential { next } => seq![next as int],
        ControlFlowEffect::Unconditional { target } => seq![target as int],
        ControlFlowEffect::Conditional { target, fallthrough } => seq![
            target as int,
            fallthrough as int,
        ],
        ControlFlowEffect::Terminal => seq![],
    }
}

/// Classify the control-flow effect of the instruction decoded at `pos`.
pub fn control_flow_effect(instr: &Instruction, pos: usize) -> (r: ControlFlowEffect)
    requires
        pos + instr.encoded_length <= usize::MAX,
    ensures
        effect_succs(r) == succ_seq(*instr, pos as int),
        r matches ControlFlowEffect::Sequential { next } ==> next == pos + instr.encoded_length,
        r matches ControlFlowEffect::Conditional { target, fallthrough } ==> fallthrough == pos
            + instr.encoded_length,
{
    let next = pos + (instr.encoded_length as usize);
    match instr.mnemonic {
        Mnemonic::Jp => match instr.op1 {
            Some(Operand::Imm16(target)) => ControlFlowEffect::Unconditional {
                target: target as usize,
            },
            Some(Operand::Cond(_)) => match instr.op2 {
                Some(Operand::Imm16(target)) => ControlFlowEffect::Conditional {
                    target: target as usize,
                    fallthrough: next,
                },
                _ => ControlFlowEffect::Sequential { next },
            },
            _ => ControlFlowEffect::Terminal,
        },
        _ => ControlFlowEffect::Sequential { next },
    }
}

/// Every statically known successor is either a 16-bit jump target or the
/// address just past the instruction.
proof fn lemma_succ_bounds(i: Instruction, pos: int)
    ensures
        forall|a: int|
            #[trigger] succ_seq(i, pos).contains(a) ==> 0 <= a < 65536 || a == pos
                + i.encoded_length,
{
}

/// `a` is among the queued addresses.
pub open spec fn in_queue(q: Seq<usize>, a: int) -> bool {
    exists|j: int| 0 <= j < q.len() && (#[trigger] q[j]) as int == a
}

proof fn lemma_in_queue_after_pop(q: Seq<usize>, a: int)
    requires
        q.len() > 0,
        in_queue(q, a),
    ensures
        in_queue(q.drop_last(), a) || a == q.last() as int,
{
    let j = choose|j: int| 0 <= j < q.len() && (#[trigger] q[j]) as int == a;
    if j < q.len() - 1 {
        assert(q.drop_last()[j] as int == a);
    }
}

proof fn lemma_in_queue_push(q: Seq<usize>, x: usize, a: int)
    requires
        in_queue(q, a) || a == x as int,
    ensures
        in_queue(q.push(x), a),
{
    if in_queue(q, a) {
        let j = choose|j: int| 0 <= j < q.len() && (#[trigger] q[j]) as int == a;
        assert(q.push(x)[j] as int == a);
    } else {
        assert(q.push(x)[q.len() as int] as int == a);
    }
}

/// Enqueue every successor address of an effect: both branches of a
/// conditional, the single target of an unconditional jump, the next address
/// of a sequential instruction, nothing for a terminal one.
fn enqueue_effect(queue: &mut Vec<usize>, eff: ControlFlowEffect)
    ensures
        forall|a: int|
            #[trigger] in_queue(final(queue)@, a) <==> in_queue(old(queue)@, a) || effect_succs(
                eff,
            ).contains(a),
{
    let ghost q0 = queue@;
    match eff {
        ControlFlowEffect::Sequential { next } => {
            queue.push(next);
            proof {
                assert forall|a: int| #[trigger] in_queue(queue@, a) implies in_queue(q0, a)
                    || effect_succs(eff).contains(a) by {
                    let j = choose|j: int|
                        0 <= j < queue@.len() && (#[trigger] queue@[j]) as int == a;
                    if j < q0.len() {
                        assert(q0[j] as int == a);
                    } else {
                        assert(effect_succs(eff)[0] == a);
                    }
                }
                assert forall|a: int|
                    in_queue(q0, a) || effect_succs(eff).contains(a) implies #[trigger] in_queue(
                    queue@,
                    a,
                ) by {
                    if in_queue(q0, a) {
                        lemma_in_queue_push(q0, next, a);
                    } else {
                        let j = choose|j: int|
                            0 <= j < effect_succs(eff).len() && effect_succs(eff)[j] == a;
                        lemma_in_queue_push(q0, next, a);
                    }
                }
            }
        },
        ControlFlowEffect::Unconditional { target } => {
            queue.push(target);
            proof {
                assert forall|a: int| #[trigger] in_queue(queue@, a) implies in_queue(q0, a)
                    || effect_succs(eff).contains(a) by {
                    let j = choose|j: int|
                        0 <= j < queue@.len() && (#[trigger] queue@[j]) as int == a;
                    if j < q0.len() {
                        assert(q0[j] as int == a);
                    } else {
                        assert(effect_succs(eff)[0] == a);
                    }
                }
                assert forall|a: int|
                    in_queue(q0, a) || effect_succs(eff).contains(a) implies #[trigger] in_queue(
                    queue@,
                    a,
                ) by {
                    if in_queue(q0, a) {
                        lemma_in_queue_push(q0, target, a);
                    } else {
                        let j = choose|j: int|
                            0 <= j < effect_succs(eff).len() && effect_succs(eff)[j] == a;
                        lemma_in_queue_push(q0, target, a);
                    }
                }
            }
        },
        ControlFlowEffect::Conditional { target, fallthrough } => {
            queue.push(fallthrough);
            queue.push(target);
            proof {
                let q1 = q0.push(fallthrough);
                assert forall|a: int| #[trigger] in_queue(queue@, a) implies in_queue(q0, a)
                    || effect_succs(eff).contains(a) by {
                    let j = choose|j: int|
                        0 <= j < queue@.len() && (#[trigger] queue@[j]) as int == a;
                    if j < q0.len() {
                        assert(q0[j] as int == a);
                    } else if j == q0.len() {
                        assert(queue@[j] == fallthrough);
                        assert(effect_succs(eff)[1] == a);
                    } else {
                        assert(queue@[j] == target);
                        assert(effect_succs(eff)[0] == a);
                    }
                }
                assert forall|a: int|
                    in_queue(q0, a) || effect_succs(eff).contains(a) implies #[trigger] in_queue(
                    queue@,
                    a,
                ) by {
                    if in_queue(q0, a) {
                        lemma_in_queue_push(q0, fallthrough, a);
                        lemma_in_queue_push(q1, target, a);
                    } else {
                        let j = choose|j: int|
                            0 <= j < effect_succs(eff).len() && effect_succs(eff)[j] == a;
                        if j == 0 {
                            lemma_in_queue_push(q1, target, a);
                        } else {
                            lemma_in_queue_push(q0, fallthrough, a);
                            lemma_in_queue_push(q1, target, a);
                        }
                    }
                }
            }
        },
        ControlFlowEffect::Terminal => {
        },
    }
}

/// Discover every address reachable from `entry` by control-flow edges,
/// decoding each reachable address exactly once. A decode failure is
/// recorded against its address and the traversal continues along the other
/// queued paths; duplicate queue entries are discarded at pop time, which
/// keeps backward branches from looping.
#[verifier::loop_isolation(false)]
pub fn disassemble(image: &[u8], entry: usize) -> (result: VisitedMap)
    ensures
        result.wf(),
        valid_disassembly(image@, entry as int, result@),
{
    let ghost img = image@;
    let ghost e = entry as int;
    let ghost bound: int = entry as int + img.len() + 65537;
    let image_len = image.len();
    let mut visited = VisitedMap::new();
    let mut queue: Vec<usize> = Vec::new();
    queue.push(entry);
    proof {
        lemma_entry_reachable(img, e);
        assert(queue@[0] as int == e);
        assert forall|a: int| #[trigger] in_queue(queue@, a) implies reachable(img, e, a) && 0
            <= a < bound by {
            let j = choose|j: int| 0 <= j < queue@.len() && (#[trigger] queue@[j]) as int == a;
            assert(a == e);
        }
    }
    while queue.len() > 0
        invariant
            visited.wf(),
            forall|k: int|
                #[trigger] visited@.dom().contains(k) ==> visited@[k] == decode_spec(img, k),
            forall|k: int|
                #[trigger] visited@.dom().contains(k) ==> reachable(img, e, k) && 0 <= k < bound,
            forall|a: int|
                #[trigger] in_queue(queue@, a) ==> reachable(img, e, a) && 0 <= a < bound,
            forall|k: int, s: int|
                visited@.dom().contains(k) && #[trigger] step(img, k, s)
                    ==> visited@.dom().contains(s) || in_queue(queue@, s),
            visited@.dom().contains(e) || in_queue(queue@, e),
            visited@.dom().len() <= bound,
        decreases bound - visited@.dom().len(), queue.len(),
    {
        let ghost q0 = queue@;
        let ghost v0 = visited@;
        let pos: usize = match queue.pop() {
            Some(p) => p,
            None => {
                proof {
                    assert(false);
                }
                0
            },
        };
        proof {
            assert(queue@ == q0.drop_last());
            assert(q0[q0.len() - 1] as int == pos as int);
            assert(in_queue(q0, pos as int));
            assert forall|a: int| #[trigger] in_queue(queue@, a) implies in_queue(q0, a) by {
                let j = choose|j: int| 0 <= j < queue@.len() && (#[trigger] queue@[j]) as int == a;
                assert(q0[j] as int == a);
            }
        }
        if !visited.contains_key(pos) {
            let outcome = decode_instruction(image, pos);
            visited.insert(pos, outcome);
            proof {
                lemma_int_range(0, bound);
                assert(v0.dom().subset_of(set_int_range(0, bound)));
                lemma_len_subset(v0.dom(), set_int_range(0, bound));
                assert(visited@.dom() =~= v0.dom().insert(pos as int));
                assert(visited@.dom().subset_of(set_int_range(0, bound)));
                lemma_len_subset(visited@.dom(), set_int_range(0, bound));
                assert(visited@.dom().len() == v0.dom().len() + 1);
            }
            match outcome {
                Ok(instr) => {
                    proof {
                        crate::decode::lemma_decode_ok_bounds(img, pos as int);
                        assert(pos + instr.encoded_length <= image_len);
                        lemma_succ_bounds(instr, pos as int);
                    }
                    let eff = control_flow_effect(&instr, pos);
                    let ghost q1 = queue@;
                    enqueue_effect(&mut queue, eff);
                    proof {
                        assert(effect_succs(eff) == succ_seq(instr, pos as int));
                        assert forall|a: int| #[trigger] in_queue(queue@, a) implies reachable(
                            img,
                            e,
                            a,
                        ) && 0 <= a < bound by {
                            if in_queue(q1, a) {
                                assert(in_queue(q0, a));
                            } else {
                                assert(succ_seq(instr, pos as int).contains(a));
                                assert(step(img, pos as int, a));
                                lemma_step_reachable(img, e, pos as int, a);
                            }
                        }
                        assert forall|k: int, s: int|
                            visited@.dom().contains(k) && #[trigger] step(img, k, s) implies
                            visited@.dom().contains(s) || in_queue(queue@, s) by {
                            if k == pos as int {
                                assert(succ_seq(instr, pos as int).contains(s));
                                assert(in_queue(queue@, s));
                            } else {
                                assert(v0.dom().contains(k));
                                if !v0.dom().contains(s) {
                                    assert(in_queue(q0, s));
                                    lemma_in_queue_after_pop(q0, s);
                                    if s != pos as int {
                                        assert(in_queue(q1, s));
                                        assert(in_queue(queue@, s));
                                    }
                                }
                            }
                        }
                        if !v0.dom().contains(e) && e != pos as int {
                            lemma_in_queue_after_pop(q0, e);
                            assert(in_queue(queue@, e));
                        }
                    }
                },
                Err(_) => {
                    proof {
                        assert forall|k: int, s: int|
                            visited@.dom().contains(k) && #[trigger] step(img, k, s) implies
                            visited@.dom().contains(s) || in_queue(queue@, s) by {
                            if k == pos as int {
                                assert(decode_spec(img, k) is Err);
                                assert(false);
                            } else {
                                assert(v0.dom().contains(k));
                                if !v0.dom().contains(s) {
                                    assert(in_queue(q0, s));
                                    lemma_in_queue_after_pop(q0, s);
                                }
                            }
                        }
                        if !v0.dom().contains(e) && e != pos as int {
                            lemma_in_queue_after_pop(q0, e);
                        }
                    }
                },
            }
        } else {
            proof {
                assert forall|k: int, s: int|
                    visited@.dom().contains(k) && #[trigger] step(img, k, s) implies
                    visited@.dom().contains(s) || in_queue(queue@, s) by {
                    if !visited@.dom().contains(s) {
                        assert(in_queue(q0, s));
                        lemma_in_queue_after_pop(q0, s);
                    }
                }
                if !visited@.dom().contains(e) {
                    lemma_in_queue_after_pop(q0, e);
                }
            }
        }
    }
    proof {
        assert forall|k: int, s: int|
            visited@.dom().contains(k) && #[trigger] step(img, k, s) implies visited@.dom()
                .contains(s) by {
            if in_queue(queue@, s) {
                let j = choose|j: int| 0 <= j < queue@.len() && (#[trigger] queue@[j]) as int == s;
                assert(false);
            }
        }
        if in_queue(queue@, e) {
            let j = choose|j: int| 0 <= j < queue@.len() && (#[trigger] queue@[j]) as int == e;
            assert(false);
        }
    }
    visited
}

} // verus!
