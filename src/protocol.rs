//! The per-field gate as a table of flag patterns.
//!
//! A holder over `n` fields is parametrized by `n` boolean flags. Each field
//! `i` has one operation whose receiver fixes flag `i` to `false`, leaves every
//! other flag as a free parameter, and whose result fixes flag `i` to `true`
//! and passes every other parameter through. The entry point produces all
//! flags `false`; the exit point is defined on all flags `true`.
use vstd::prelude::*;

verus! {

/// One flag argument of a holder type: a free parameter named after the
/// field at that index, or a fixed value.
#[derive(PartialEq, Eq, Structural, Clone, Copy, Debug)]
pub enum FlagArg {
    Free(usize),
    Fixed(bool),
}

/// The generated operation of one field: the free flag parameters it is
/// generic over, the flags of the holder it accepts and of the one it returns.
pub struct Transition {
    pub field: usize,
    pub free: Vec<usize>,
    pub before: Vec<FlagArg>,
    pub after: Vec<FlagArg>,
}

/// The argument at position `j` of the operation of field `i`: fixed to `b`
/// at `i`, free everywhere else.
pub open spec fn gated(i: int, j: int, b: bool) -> FlagArg {
    if j == i {
        FlagArg::Fixed(b)
    } else {
        FlagArg::Free(j as usize)
    }
}

/// The flag pattern of an operation of field `i` over `n` fields, with `b`
/// at `i`.
pub open spec fn pattern(n: int, i: int, b: bool) -> Seq<FlagArg> {
    Seq::new(n as nat, |j: int| gated(i, j, b))
}

/// Every index below `n` but `i`, in increasing order.
pub open spec fn others(n: int, i: int) -> Seq<usize> {
    Seq::new((n - 1) as nat, |k: int| if k < i { k as usize } else { (k + 1) as usize })
}

/// `n` copies of the fixed value `b`.
pub open spec fn all_fixed(n: int, b: bool) -> Seq<FlagArg> {
    Seq::new(n as nat, |j: int| FlagArg::Fixed(b))
}

/// The flags that a pattern denotes once its free parameters take the
/// values of `env` (a free parameter is named by its field's index).
pub open spec fn instantiate(p: Seq<FlagArg>, env: Seq<bool>) -> Seq<bool> {
    Seq::new(
        p.len(),
        |j: int|
            match p[j] {
                FlagArg::Fixed(b) => b,
                FlagArg::Free(k) => env[k as int],
            },
    )
}

/// The indices `0..n`, in order.
pub fn indices(n: usize) -> (r: Vec<usize>)
    ensures
        r@ == Seq::new(n as nat, |k: int| k as usize),
{
    let mut r: Vec<usize> = Vec::new();
    let mut j: usize = 0;
    while j < n
        invariant
            j <= n,
            r@ == Seq::new(j as nat, |k: int| k as usize),
        decreases n - j,
    {
        r.push(j);
        j = j + 1;
        assert(r@ =~= Seq::new(j as nat, |k: int| k as usize));
    }
    r
}

/// `n` copies of the fixed flag `b`: the holder type of the entry point
/// (`false`) and of the exit point (`true`).
pub fn uniform(n: usize, b: bool) -> (r: Vec<FlagArg>)
    ensures
        r@ == all_fixed(n as int, b),
{
    let mut r: Vec<FlagArg> = Vec::new();
    let mut j: usize = 0;
    while j < n
        invariant
            j <= n,
            r@ == all_fixed(j as int, b),
        decreases n - j,
    {
        r.push(FlagArg::Fixed(b));
        j = j + 1;
        assert(r@ =~= all_fixed(j as int, b));
    }
    r
}

/// The operation of field `i` among `n` fields.
pub fn transition(n: usize, i: usize) -> (t: Transition)
    requires
        i < n,
    ensures
        t.field == i,
        t.free@ == others(n as int, i as int),
        t.before@ == pattern(n as int, i as int, false),
        t.after@ == pattern(n as int, i as int, true),
{
    let mut free: Vec<usize> = Vec::new();
    let mut before: Vec<FlagArg> = Vec::new();
    let mut after: Vec<FlagArg> = Vec::new();
    let mut j: usize = 0;
    while j < n
        invariant
            i < n,
            j <= n,
            free@ == others(if j <= i { j + 1 } else { j as int }, i as int),
            before@ == pattern(j as int, i as int, false),
            after@ == pattern(j as int, i as int, true),
        decreases n - j,
    {
        if j == i {
            before.push(FlagArg::Fixed(false));
            after.push(FlagArg::Fixed(true));
        } else {
            free.push(j);
            before.push(FlagArg::Free(j));
            after.push(FlagArg::Free(j));
        }
        j = j + 1;
        assert(free@ =~= others(if j <= i { j + 1 } else { j as int }, i as int));
        assert(before@ =~= pattern(j as int, i as int, false));
        assert(after@ =~= pattern(j as int, i as int, true));
    }
    Transition { field: i, free, before, after }
}

/// The operation of a field accepts exactly the holders whose flag for that
/// field is `false`, whatever the other flags are, and returns the holder
/// whose flags differ from them in that field alone, now `true`.
pub proof fn lemma_transition_flips_one(n: usize, i: usize, flags: Seq<bool>)
    requires
        i < n,
        flags.len() == n,
    ensures
        instantiate(pattern(n as int, i as int, false), flags)[i as int] == false,
        instantiate(pattern(n as int, i as int, true), flags)[i as int] == true,
        !flags[i as int] ==> instantiate(pattern(n as int, i as int, false), flags) == flags,
        instantiate(pattern(n as int, i as int, true), flags) == flags.update(i as int, true),
        forall|j: usize| j < n && j != i ==> #[trigger] others(n as int, i as int).contains(j),
{
    let before = instantiate(pattern(n as int, i as int, false), flags);
    let after = instantiate(pattern(n as int, i as int, true), flags);
    assert forall|j: int| 0 <= j < n implies #[trigger] after[j] == flags.update(i as int, true)[j] by {
        if j != i {
            assert(pattern(n as int, i as int, true)[j] == FlagArg::Free(j as usize));
        }
    }
    assert(after =~= flags.update(i as int, true));
    if !flags[i as int] {
        assert forall|j: int| 0 <= j < n implies #[trigger] before[j] == flags[j] by {
            if j != i {
                assert(pattern(n as int, i as int, false)[j] == FlagArg::Free(j as usize));
            }
        }
        assert(before =~= flags);
    }
    assert forall|j: usize| j < n && j != i implies #[trigger] others(n as int, i as int).contains(j) by {
        let k: int = if j < i { j as int } else { j - 1 };
        assert(others(n as int, i as int)[k] == j);
    }
}

} // verus!
