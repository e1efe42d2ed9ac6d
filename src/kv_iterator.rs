//! Iterators over key-value pairs: a generator of numbered test pairs, and one
//! that runs a list of iterators one after another.

use vstd::prelude::*;

verus! {

/// The decimal digits of `n`, as ASCII bytes.
pub open spec fn digits(n: nat) -> Seq<u8>
    decreases n,
{
    if n < 10 {
        seq![(48 + n) as u8]
    } else {
        digits(n / 10) + seq![(48 + n % 10) as u8]
    }
}

/// `n` in decimal, padded with leading zeros to at least five digits.
pub open spec fn padded(n: nat) -> Seq<u8> {
    let d = digits(n);
    if d.len() < 5 {
        Seq::new((5 - d.len()) as nat, |i: int| 48u8) + d
    } else {
        d
    }
}

/// The key of the `n`-th test pair: `key_` and the padded number.
pub open spec fn test_key(n: nat) -> Seq<u8> {
    seq![107u8, 101u8, 121u8, 95u8] + padded(n)
}

/// The value of the `n`-th test pair: `value_` and the padded number.
pub open spec fn test_value(n: nat) -> Seq<u8> {
    seq![118u8, 97u8, 108u8, 117u8, 101u8, 95u8] + padded(n)
}

proof fn lemma_digits_len(n: nat)
    ensures
        n < 10 ==> digits(n).len() == 1,
        10 <= n < 100 ==> digits(n).len() == 2,
        100 <= n < 1000 ==> digits(n).len() == 3,
        1000 <= n < 10000 ==> digits(n).len() == 4,
        10000 <= n ==> digits(n).len() >= 5,
    decreases n,
{
    if n >= 10 {
        lemma_digits_len(n / 10);
    }
}

/// Appends the decimal digits of `n`.
fn push_digits(out: &mut Vec<u8>, n: usize)
    ensures
        final(out)@ == old(out)@ + digits(n as nat),
    decreases n,
{
    if n >= 10 {
        push_digits(out, n / 10);
    }
    out.push((48 + n % 10) as u8);
    assert(out@ =~= old(out)@ + digits(n as nat));
}

/// Appends `n` padded with leading zeros to at least five digits.
fn push_padded(out: &mut Vec<u8>, n: usize)
    ensures
        final(out)@ == old(out)@ + padded(n as nat),
{
    proof {
        lemma_digits_len(n as nat);
    }
    let zeros: usize = if n < 10 {
        4
    } else if n < 100 {
        3
    } else if n < 1000 {
        2
    } else if n < 10000 {
        1
    } else {
        0
    };
    let mut i: usize = 0;
    while i < zeros
        invariant
            i <= zeros,
            zeros <= 4,
            out@ == old(out)@ + Seq::new(i as nat, |j: int| 48u8),
        decreases zeros - i,
    {
        out.push(48u8);
        i = i + 1;
        assert(out@ =~= old(out)@ + Seq::new(i as nat, |j: int| 48u8));
    }
    push_digits(out, n);
    assert(out@ =~= old(out)@ + padded(n as nat));
}

/// The views of a pair that an iterator hands out.
pub open spec fn pair_view(r: Option<(Vec<u8>, Vec<u8>)>) -> Option<(Seq<u8>, Seq<u8>)> {
    match r {
        Some((k, v)) => Some((k@, v@)),
        None => None,
    }
}

/// A source of key-value pairs, handed out one at a time.
pub trait KvIterator: Sized {
    /// No pairs are left.
    spec fn done(&self) -> bool;

    /// One step from `before` hands out `r` and leaves `after`.
    spec fn step(before: Self, after: Self, r: Option<(Seq<u8>, Seq<u8>)>) -> bool;

    fn next(&mut self) -> (r: Option<(Vec<u8>, Vec<u8>)>)
        ensures
            Self::step(*old(self), *final(self), pair_view(r)),
            r is None <==> old(self).done(),
            r is None ==> final(self).done(),
    ;
}

/// Hands out the pairs `key_NNNNN` / `value_NNNNN` for each number of a range.
pub struct TestIterator {
    idx: usize,
    to_idx: usize,
    key: Vec<u8>,
    value: Vec<u8>,
}

impl TestIterator {
    /// The number of the next pair.
    pub closed spec fn position(&self) -> nat {
        self.idx as nat
    }

    /// The number at which the pairs end.
    pub closed spec fn end(&self) -> nat {
        self.to_idx as nat
    }

    /// The pairs numbered from `from_idx` up to, not including, `to_idx`.
    pub fn new(from_idx: usize, to_idx: usize) -> (r: TestIterator)
        ensures
            r.position() == from_idx,
            r.end() == to_idx,
    {
        TestIterator { idx: from_idx, to_idx, key: Vec::new(), value: Vec::new() }
    }

    /// The next pair of the range, or nothing once it is through.
    pub fn next_pair(&mut self) -> (r: Option<(Vec<u8>, Vec<u8>)>)
        ensures
            Self::step(*old(self), *final(self), pair_view(r)),
            r is None <==> old(self).done(),
            r is None ==> final(self).done(),
    {
        if self.idx >= self.to_idx {
            return None;
        }
        self.key.clear();
        self.key.push(107u8);
        self.key.push(101u8);
        self.key.push(121u8);
        self.key.push(95u8);
        push_padded(&mut self.key, self.idx);
        self.value.clear();
        self.value.push(118u8);
        self.value.push(97u8);
        self.value.push(108u8);
        self.value.push(117u8);
        self.value.push(101u8);
        self.value.push(95u8);
        push_padded(&mut self.value, self.idx);
        assert(self.key@ =~= test_key(self.idx as nat));
        assert(self.value@ =~= test_value(self.idx as nat));
        self.idx = self.idx + 1;
        Some((self.key.clone(), self.value.clone()))
    }
}

impl KvIterator for TestIterator {
    open spec fn done(&self) -> bool {
        self.position() >= self.end()
    }

    open spec fn step(before: Self, after: Self, r: Option<(Seq<u8>, Seq<u8>)>) -> bool {
        &&& after.end() == before.end()
        &&& before.position() >= before.end() ==> r is None && after.position() == before.position()
        &&& before.position() < before.end() ==> r == Some(
            (test_key(before.position()), test_value(before.position())),
        ) && after.position() == before.position() + 1
    }

    fn next(&mut self) -> (r: Option<(Vec<u8>, Vec<u8>)>) {
        self.next_pair()
    }
}

/// Runs a list of iterators one after another: all pairs of the first, then
/// all pairs of the second, and so on.
pub struct ConcatIterator<Iter: KvIterator> {
    iters: Vec<Iter>,
    key: Vec<u8>,
    value: Vec<u8>,
    current_idx: usize,
}

impl<Iter: KvIterator> ConcatIterator<Iter> {
    /// The iterators, in the order they run.
    pub closed spec fn iters_spec(&self) -> Seq<Iter> {
        self.iters@
    }

    /// The number of iterators in the list.
    pub open spec fn count(&self) -> nat {
        self.iters_spec().len()
    }

    /// The position of the iterator that the next pair comes from.
    pub closed spec fn current(&self) -> nat {
        self.current_idx as nat
    }

    /// The position lies within the list (or at its end).
    pub open spec fn wf(&self) -> bool {
        self.current() <= self.count()
    }

    /// The last key handed out.
    pub closed spec fn key_buf(&self) -> Seq<u8> {
        self.key@
    }

    /// The last value handed out.
    pub closed spec fn value_buf(&self) -> Seq<u8> {
        self.value@
    }

    pub fn new(iters: Vec<Iter>) -> (r: ConcatIterator<Iter>)
        ensures
            r.iters_spec() == iters@,
            r.current() == 0,
            r.wf(),
            r.key_buf().len() == 0,
            r.value_buf().len() == 0,
    {
        ConcatIterator { iters, current_idx: 0, key: Vec::new(), value: Vec::new() }
    }

    /// The next pair of the current iterator; an iterator that is through
    /// passes the turn to the next one. Nothing once all are through.
    pub fn next_pair(&mut self) -> (r: Option<(Vec<u8>, Vec<u8>)>)
        ensures
            Self::step(*old(self), *final(self), pair_view(r)),
            r is None <==> old(self).done(),
            r is None ==> final(self).done(),
    {
        if self.current_idx > self.iters.len() {
            self.current_idx = self.iters.len();
        }
        let ghost start = self.current_idx as int;
        let ghost first = self.iters@;
        while self.current_idx < self.iters.len()
            invariant
                self.iters@.len() == first.len(),
                first == old(self).iters@,
                start <= self.current_idx <= self.iters@.len(),
                old(self).wf() ==> start == old(self).current_idx,
                !old(self).wf() ==> start == first.len(),
                self.key@ == old(self).key@,
                self.value@ == old(self).value@,
                forall|j: int|
                    0 <= j < self.iters@.len() && (j < start || j >= self.current_idx)
                        ==> #[trigger] self.iters@[j] == first[j],
                forall|j: int|
                    start <= j < self.current_idx ==> Iter::step(
                        first[j],
                        #[trigger] self.iters@[j],
                        None,
                    ) && first[j].done() && self.iters@[j].done(),
                forall|j: int| start <= j < self.current_idx ==> #[trigger] first[j].done(),
            decreases self.iters@.len() - self.current_idx,
        {
            let i = self.current_idx;
            let ghost before = self.iters@;
            let mut it = self.iters.remove(i);
            let got = it.next();
            self.iters.insert(i, it);
            assert(self.iters@ =~= before.update(i as int, it));
            match got {
                Some((k, v)) => {
                    self.key = k;
                    self.value = v;
                    let r = Some((self.key.clone(), self.value.clone()));
                    assert(pair_view(r) == pair_view(got));
                    assert(!old(self).iters_spec()[i as int].done());
                    return r;
                },
                None => {
                    self.current_idx = self.current_idx + 1;
                },
            }
        }
        assert forall|j: int| old(self).current() <= j < old(self).count() implies #[trigger] old(
            self,
        ).iters_spec()[j].done() by {
            assert(old(self).wf());
            assert(start <= j < self.current_idx);
            assert(first[j].done());
        }
        None
    }
}

impl<Iter: KvIterator> KvIterator for ConcatIterator<Iter> {
    open spec fn done(&self) -> bool {
        forall|j: int| self.current() <= j < self.count() ==> #[trigger] self.iters_spec()[j].done()
    }

    open spec fn step(before: Self, after: Self, r: Option<(Seq<u8>, Seq<u8>)>) -> bool {
        &&& after.wf()
        &&& after.count() == before.count()
        &&& before.wf() ==> before.current() <= after.current()
        &&& forall|j: int|
            0 <= j < before.count() && (j < before.current() || j > after.current())
                ==> #[trigger] after.iters_spec()[j] == before.iters_spec()[j]
        &&& forall|j: int|
            before.current() <= j < after.current() ==> Iter::step(
                before.iters_spec()[j],
                #[trigger] after.iters_spec()[j],
                None,
            ) && before.iters_spec()[j].done() && after.iters_spec()[j].done()
        &&& r is None ==> after.current() == after.count()
        &&& r is Some ==> after.current() < after.count() && Iter::step(
            before.iters_spec()[after.current() as int],
            after.iters_spec()[after.current() as int],
            r,
        )
        &&& r matches Some((k, v)) ==> after.key_buf() == k && after.value_buf() == v
    }

    fn next(&mut self) -> (r: Option<(Vec<u8>, Vec<u8>)>) {
        self.next_pair()
    }
}

} // verus!
