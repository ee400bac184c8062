//! The instance pool: instances split into an available and a disabled
//! sequence, with a cursor for round-robin choice among the available ones.

use vstd::prelude::*;
use crate::instance::{Instance, InstanceView};

verus! {

/// The value of a pool.
pub ghost struct PoolView {
    pub available: Seq<InstanceView>,
    pub disabled: Seq<InstanceView>,
    pub cursor: nat,
}

/// The values of a sequence of instances.
pub open spec fn views(s: Seq<Instance>) -> Seq<InstanceView> {
    s.map_values(|i: Instance| i@)
}

/// Holds of every instance value but `x`.
pub open spec fn differs(x: InstanceView) -> spec_fn(InstanceView) -> bool {
    |y: InstanceView| y != x
}

/// `s` with every occurrence of `x` taken out, the rest in order.
pub open spec fn without(s: Seq<InstanceView>, x: InstanceView) -> Seq<InstanceView> {
    s.filter(differs(x))
}

/// No instance value stands in both `a` and `d`.
pub open spec fn disjoint(a: Seq<InstanceView>, d: Seq<InstanceView>) -> bool {
    forall|i: int, j: int| 0 <= i < a.len() && 0 <= j < d.len() ==> a[i] != d[j]
}

/// The pool's invariant: an instance value is never both available and disabled.
pub open spec fn pool_wf(v: PoolView) -> bool {
    disjoint(v.available, v.disabled)
}

/// The position that the next choice reads: the cursor, or 0 where the cursor
/// has run past the end of `available`.
pub open spec fn start_of(v: PoolView) -> nat {
    if v.cursor < v.available.len() {
        v.cursor
    } else {
        0
    }
}

/// Round-robin choice: the instance at the cursor, if any is available, and
/// the pool with the cursor moved on by one, back to 0 at the end.
pub open spec fn select_spec(v: PoolView) -> (Option<InstanceView>, PoolView) {
    if v.available.len() == 0 {
        (None, v)
    } else {
        let idx: nat = start_of(v);
        let next = if idx + 1 < v.available.len() {
            (idx + 1) as nat
        } else {
            0nat
        };
        (Some(v.available[idx as int]), PoolView { cursor: next, ..v })
    }
}

/// `x` added at the end of `available`.
pub open spec fn add_spec(v: PoolView, x: InstanceView) -> PoolView {
    PoolView { available: v.available.push(x), ..v }
}

/// `x` moved from `available` to the end of `disabled`; no change where `x`
/// is not available.
pub open spec fn demote_spec(v: PoolView, x: InstanceView) -> PoolView {
    if v.available.contains(x) {
        PoolView { available: without(v.available, x), disabled: v.disabled.push(x), ..v }
    } else {
        v
    }
}

/// `x` moved from `disabled` to the end of `available`; no change where `x`
/// is not disabled.
pub open spec fn promote_spec(v: PoolView, x: InstanceView) -> PoolView {
    if v.disabled.contains(x) {
        PoolView { available: v.available.push(x), disabled: without(v.disabled, x), ..v }
    } else {
        v
    }
}

/// The value of an optional instance.
pub open spec fn opt_view(o: Option<Instance>) -> Option<InstanceView> {
    match o {
        Some(i) => Some(i@),
        None => None,
    }
}

proof fn lemma_without_contains(s: Seq<InstanceView>, x: InstanceView, y: InstanceView)
    ensures
        without(s, x).contains(y) <==> (s.contains(y) && y != x),
{
    broadcast use vstd::seq_lib::group_filter_ensures;
    broadcast use Seq::lemma_filter_contains_rev;

    if s.contains(y) && y != x {
        let i = choose|i: int| 0 <= i < s.len() && s[i] == y;
        assert(differs(x)(s[i]));
    }
    if without(s, x).contains(y) {
        let i = choose|i: int| 0 <= i < without(s, x).len() && without(s, x)[i] == y;
        assert(differs(x)(without(s, x)[i]));
    }
}

/// Demotion keeps the invariant.
pub proof fn lemma_demote_keeps_wf(v: PoolView, x: InstanceView)
    requires
        pool_wf(v),
    ensures
        pool_wf(demote_spec(v, x)),
{
    if v.available.contains(x) {
        let w = demote_spec(v, x);
        assert forall|i: int, j: int|
            0 <= i < w.available.len() && 0 <= j < w.disabled.len() implies w.available[i]
            != w.disabled[j] by {
            let y = w.available[i];
            assert(w.available.contains(y));
            lemma_without_contains(v.available, x, y);
            let k = choose|k: int| 0 <= k < v.available.len() && v.available[k] == y;
            if j < v.disabled.len() {
                assert(v.available[k] != v.disabled[j]);
            }
        }
    }
}

/// Promotion keeps the invariant.
pub proof fn lemma_promote_keeps_wf(v: PoolView, x: InstanceView)
    requires
        pool_wf(v),
    ensures
        pool_wf(promote_spec(v, x)),
{
    if v.disabled.contains(x) {
        let w = promote_spec(v, x);
        assert forall|i: int, j: int|
            0 <= i < w.available.len() && 0 <= j < w.disabled.len() implies w.available[i]
            != w.disabled[j] by {
            let y = w.disabled[j];
            assert(w.disabled.contains(y));
            lemma_without_contains(v.disabled, x, y);
            let k = choose|k: int| 0 <= k < v.disabled.len() && v.disabled[k] == y;
            if i < v.available.len() {
                assert(v.available[i] != v.disabled[k]);
            }
        }
    }
}

/// Adding an instance that is not disabled keeps the invariant.
pub proof fn lemma_add_keeps_wf(v: PoolView, x: InstanceView)
    requires
        pool_wf(v),
        !v.disabled.contains(x),
    ensures
        pool_wf(add_spec(v, x)),
{
    let w = add_spec(v, x);
    assert forall|i: int, j: int|
        0 <= i < w.available.len() && 0 <= j < w.disabled.len() implies w.available[i]
        != w.disabled[j] by {
        if i == v.available.len() {
            assert(v.disabled.contains(v.disabled[j]));
        }
    }
}

/// One operation on a pool.
pub ghost enum PoolOp {
    Add(InstanceView),
    Select,
    Demote(InstanceView),
    Promote(InstanceView),
}

/// The pool after one operation.
pub open spec fn apply_op(v: PoolView, op: PoolOp) -> PoolView {
    match op {
        PoolOp::Add(x) => add_spec(v, x),
        PoolOp::Select => select_spec(v).1,
        PoolOp::Demote(x) => demote_spec(v, x),
        PoolOp::Promote(x) => promote_spec(v, x),
    }
}

/// The pool after a sequence of operations, first to last.
pub open spec fn apply_ops(v: PoolView, ops: Seq<PoolOp>) -> PoolView
    decreases ops.len(),
{
    if ops.len() == 0 {
        v
    } else {
        apply_ops(apply_op(v, ops[0]), ops.drop_first())
    }
}

/// Every operation in `ops` may be made where it comes: no instance is added
/// while it is disabled.
pub open spec fn ops_admissible(v: PoolView, ops: Seq<PoolOp>) -> bool
    decreases ops.len(),
{
    if ops.len() == 0 {
        true
    } else {
        (match ops[0] {
            PoolOp::Add(x) => !v.disabled.contains(x),
            _ => true,
        }) && ops_admissible(apply_op(v, ops[0]), ops.drop_first())
    }
}

/// After any sequence of additions, choices, demotions and promotions, no
/// instance value is both available and disabled.
pub proof fn lemma_ops_keep_disjoint(v: PoolView, ops: Seq<PoolOp>)
    requires
        pool_wf(v),
        ops_admissible(v, ops),
    ensures
        pool_wf(apply_ops(v, ops)),
    decreases ops.len(),
{
    if ops.len() > 0 {
        match ops[0] {
            PoolOp::Add(x) => lemma_add_keeps_wf(v, x),
            PoolOp::Select => {},
            PoolOp::Demote(x) => lemma_demote_keeps_wf(v, x),
            PoolOp::Promote(x) => lemma_promote_keeps_wf(v, x),
        }
        lemma_ops_keep_disjoint(apply_op(v, ops[0]), ops.drop_first());
    }
}

/// The instances returned by `k` choices in a row, and the pool after them.
pub open spec fn select_many(v: PoolView, k: nat) -> (Seq<InstanceView>, PoolView)
    decreases k,
{
    if k == 0 {
        (Seq::empty(), v)
    } else {
        let (rs, w) = select_many(v, (k - 1) as nat);
        let (r, w2) = select_spec(w);
        (
            match r {
                Some(i) => rs.push(i),
                None => rs,
            },
            w2,
        )
    }
}

/// Round-robin choice, step by step: while nothing else changes the pool,
/// the `i`-th of `k` choices in a row returns the instance `i` places after
/// the cursor, counted round `available`, and the sets stay as they are.
pub proof fn lemma_select_rotation(v: PoolView, k: nat)
    requires
        v.available.len() > 0,
    ensures
        select_many(v, k).1.available == v.available,
        select_many(v, k).1.disabled == v.disabled,
        start_of(select_many(v, k).1) as int == (start_of(v) + k) as int % (v.available.len() as int),
        select_many(v, k).0.len() == k,
        forall|i: int|
            0 <= i < k ==> #[trigger] select_many(v, k).0[i] == v.available[(start_of(v) + i)
                % (v.available.len() as int)],
    decreases k,
{
    let n: int = v.available.len() as int;
    let s: int = start_of(v) as int;
    if k == 0 {
        vstd::arithmetic::div_mod::lemma_fundamental_div_mod_converse(s, n, 0, s);
    } else {
        lemma_select_rotation(v, (k - 1) as nat);
        let w = select_many(v, (k - 1) as nat).1;
        let m: int = s + k - 1;
        let idx: int = m % n;
        vstd::arithmetic::div_mod::lemma_fundamental_div_mod(m, n);
        let q: int = m / n;
        vstd::arithmetic::div_mod::lemma_mod_bound(m, n);
        assert(m == q * n + idx);
        if idx + 1 < n {
            vstd::arithmetic::div_mod::lemma_fundamental_div_mod_converse(m + 1, n, q, idx + 1);
        } else {
            assert(m + 1 == (q + 1) * n + 0) by (nonlinear_arith)
                requires
                    m == q * n + idx,
                    idx + 1 == n,
            ;
            vstd::arithmetic::div_mod::lemma_fundamental_div_mod_converse(m + 1, n, q + 1, 0);
        }
    }
}

/// Round-robin choice: with `n` instances available and nothing else
/// changing the pool, `n` choices in a row return each position of
/// `available` once, in rotation from the cursor, and the next choice returns
/// the first one again.
pub proof fn lemma_round_robin(v: PoolView)
    requires
        v.available.len() > 0,
    ensures
        select_many(v, v.available.len()).0 =~= v.available.subrange(
            start_of(v) as int,
            v.available.len() as int,
        ) + v.available.subrange(0, start_of(v) as int),
        select_many(v, v.available.len() + 1).0[v.available.len() as int] == select_many(
            v,
            v.available.len() + 1,
        ).0[0],
        select_many(v, v.available.len()).1.available == v.available,
        select_many(v, v.available.len()).1.disabled == v.disabled,
{
    let n: int = v.available.len() as int;
    let s: int = start_of(v) as int;
    lemma_select_rotation(v, n as nat);
    lemma_select_rotation(v, (n + 1) as nat);
    let rs = select_many(v, n as nat).0;
    let rot = v.available.subrange(s, n) + v.available.subrange(0, s);
    assert forall|i: int| 0 <= i < n implies rs[i] == rot[i] by {
        assert(rs[i] == v.available[(s + i) % n]);
        if i < n - s {
            vstd::arithmetic::div_mod::lemma_fundamental_div_mod_converse(s + i, n, 0, s + i);
        } else {
            vstd::arithmetic::div_mod::lemma_fundamental_div_mod_converse(s + i, n, 1, s + i - n);
        }
    }
    let rs1 = select_many(v, (n + 1) as nat).0;
    assert(rs1[n] == v.available[(s + n) % n]);
    assert(rs1[0] == v.available[(s + 0) % n]);
    vstd::arithmetic::div_mod::lemma_fundamental_div_mod_converse(s + n, n, 1, s);
    vstd::arithmetic::div_mod::lemma_fundamental_div_mod_converse(s, n, 0, s);
}

/// A set of available and disabled instances with round-robin choice.
pub struct Pool {
    available: Vec<Instance>,
    disabled: Vec<Instance>,
    cursor: usize,
}

impl View for Pool {
    type V = PoolView;

    closed spec fn view(&self) -> PoolView {
        PoolView {
            available: views(self.available@),
            disabled: views(self.disabled@),
            cursor: self.cursor as nat,
        }
    }
}

fn copy_all(v: &Vec<Instance>) -> (r: Vec<Instance>)
    ensures
        views(r@) == views(v@),
{
    let mut out: Vec<Instance> = Vec::new();
    let mut i: usize = 0;
    while i < v.len()
        invariant
            i <= v.len(),
            views(out@) =~= views(v@.subrange(0, i as int)),
        decreases v.len() - i,
    {
        let ghost before = out@;
        out.push(v[i].duplicate());
        assert(views(out@) =~= views(before).push(v@[i as int]@));
        assert(views(v@.subrange(0, i + 1)) =~= views(v@.subrange(0, i as int)).push(v@[i as int]@));
        i += 1;
    }
    assert(v@.subrange(0, v.len() as int) =~= v@);
    out
}

fn remove_all(v: &Vec<Instance>, x: &Instance) -> (r: Vec<Instance>)
    ensures
        views(r@) == without(views(v@), x@),
{
    broadcast use Seq::lemma_filter_push;

    let mut out: Vec<Instance> = Vec::new();
    let mut i: usize = 0;
    assert(views(v@.subrange(0, 0)) =~= Seq::<InstanceView>::empty());
    assert(Seq::<InstanceView>::empty().filter(differs(x@)) =~= Seq::<InstanceView>::empty())
        by {
        reveal(Seq::filter);
    }
    while i < v.len()
        invariant
            i <= v.len(),
            views(out@) == without(views(v@.subrange(0, i as int)), x@),
        decreases v.len() - i,
    {
        let ghost before = views(v@.subrange(0, i as int));
        assert(views(v@.subrange(0, i + 1)) =~= before.push(v@[i as int]@));
        let ghost prev = out@;
        proof {
            before.lemma_filter_push(v@[i as int]@, differs(x@));
            assert(differs(x@)(v@[i as int]@) == (v@[i as int]@ != x@));
        }
        if !v[i].same_as(x) {
            out.push(v[i].duplicate());
            assert(views(out@) =~= views(prev).push(v@[i as int]@));
        }
        i += 1;
    }
    assert(v@.subrange(0, v.len() as int) =~= v@);
    out
}

fn find(v: &Vec<Instance>, x: &Instance) -> (r: bool)
    ensures
        r == views(v@).contains(x@),
{
    let mut i: usize = 0;
    while i < v.len()
        invariant
            i <= v.len(),
            forall|k: int| 0 <= k < i ==> v@[k]@ != x@,
        decreases v.len() - i,
    {
        if v[i].same_as(x) {
            assert(views(v@)[i as int] == x@);
            return true;
        }
        i += 1;
    }
    assert forall|k: int| 0 <= k < views(v@).len() implies views(v@)[k] != x@ by {}
    false
}

impl Pool {
    /// The pool's invariant.
    pub open spec fn wf(&self) -> bool {
        pool_wf(self@)
    }

    /// A pool with no instance.
    pub fn new() -> (r: Pool)
        ensures
            r.wf(),
            r@.available.len() == 0,
            r@.disabled.len() == 0,
            r@.cursor == 0,
    {
        Pool { available: Vec::new(), disabled: Vec::new(), cursor: 0 }
    }

    /// Appends `instance` to the available instances. Duplicates are kept:
    /// callers avoid them.
    pub fn add(&mut self, instance: Instance)
        requires
            old(self).wf(),
            !old(self)@.disabled.contains(instance@),
        ensures
            final(self).wf(),
            final(self)@ == add_spec(old(self)@, instance@),
    {
        proof {
            lemma_add_keeps_wf(self@, instance@);
        }
        self.available.push(instance);
        assert(views(self.available@) =~= old(self)@.available.push(instance@));
    }

    /// The instance at the cursor, moving the cursor on by one and back to 0
    /// at the end; `None` where no instance is available.
    pub fn select_next(&mut self) -> (r: Option<Instance>)
        requires
            old(self).wf(),
        ensures
            final(self).wf(),
            opt_view(r) == select_spec(old(self)@).0,
            final(self)@ == select_spec(old(self)@).1,
            r.is_none() <==> old(self)@.available.len() == 0,
    {
        let len: usize = self.available.len();
        if len == 0 {
            return None;
        }
        let idx: usize = if self.cursor < len {
            self.cursor
        } else {
            0
        };
        let chosen = self.available[idx].duplicate();
        self.cursor = if idx + 1 < len {
            idx + 1
        } else {
            0
        };
        Some(chosen)
    }

    /// Moves `instance` (every copy of it) from the available instances to
    /// the end of the disabled ones. Returns whether it was available; where
    /// it was not, nothing changes.
    pub fn demote(&mut self, instance: &Instance) -> (r: bool)
        requires
            old(self).wf(),
        ensures
            final(self).wf(),
            r == old(self)@.available.contains(instance@),
            final(self)@ == demote_spec(old(self)@, instance@),
            !r ==> final(self)@ == old(self)@,
            final(self)@.cursor == old(self)@.cursor,
    {
        proof {
            lemma_demote_keeps_wf(self@, instance@);
        }
        if !find(&self.available, instance) {
            return false;
        }
        self.available = remove_all(&self.available, instance);
        self.disabled.push(instance.duplicate());
        assert(views(self.disabled@) =~= old(self)@.disabled.push(instance@));
        true
    }

    /// Moves `instance` (every copy of it) from the disabled instances to
    /// the end of the available ones. Returns whether it was disabled; where
    /// it was not, nothing changes.
    pub fn promote(&mut self, instance: &Instance) -> (r: bool)
        requires
            old(self).wf(),
        ensures
            final(self).wf(),
            r == old(self)@.disabled.contains(instance@),
            final(self)@ == promote_spec(old(self)@, instance@),
            !r ==> final(self)@ == old(self)@,
            final(self)@.cursor == old(self)@.cursor,
    {
        proof {
            lemma_promote_keeps_wf(self@, instance@);
        }
        if !find(&self.disabled, instance) {
            return false;
        }
        self.disabled = remove_all(&self.disabled, instance);
        self.available.push(instance.duplicate());
        assert(views(self.available@) =~= old(self)@.available.push(instance@));
        true
    }

    /// Whether `instance` is among the disabled instances.
    pub fn is_disabled(&self, instance: &Instance) -> (r: bool)
        ensures
            r == self@.disabled.contains(instance@),
    {
        find(&self.disabled, instance)
    }

    /// A copy of the available instances, in order.
    pub fn snapshot_available(&self) -> (r: Vec<Instance>)
        ensures
            views(r@) == self@.available,
    {
        copy_all(&self.available)
    }

    /// A copy of the disabled instances, in order.
    pub fn snapshot_disabled(&self) -> (r: Vec<Instance>)
        ensures
            views(r@) == self@.disabled,
    {
        copy_all(&self.disabled)
    }
}

} // verus!
