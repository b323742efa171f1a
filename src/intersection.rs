use vstd::prelude::*;

verus! {

broadcast use {vstd::seq_lib::to_multiset_build, vstd::seq_lib::to_multiset_insert};

/// A crossing of a ray with the surface of an object: the ray parameter `t` at the
/// crossing and the object's index in its scene.
#[derive(Clone, Copy, Debug, PartialEq, Eq, Structural)]
pub struct Intersection {
    t: i64,
    object: usize,
}

impl View for Intersection {
    type V = (i64, usize);

    closed spec fn view(&self) -> (i64, usize) {
        (self.t, self.object)
    }
}

impl Intersection {
    pub fn new(t: i64, object: usize) -> (r: Self)
        ensures
            r@ == (t, object),
    {
        Self { t, object }
    }

    /// The ray parameter at the crossing.
    pub fn get_t(&self) -> (r: i64)
        ensures
            r == self@.0,
    {
        self.t
    }

    /// The index of the object crossed.
    pub fn get_object(&self) -> (r: usize)
        ensures
            r == self@.1,
    {
        self.object
    }
}

/// The intersections are in ascending order of `t`.
pub open spec fn sorted_by_t(s: Seq<Intersection>) -> bool {
    forall|i: int, j: int| 0 <= i < j < s.len() ==> s[i]@.0 <= s[j]@.0
}

/// The objects crossed, in the order of the intersections.
pub open spec fn objects_of(s: Seq<Intersection>) -> Seq<usize> {
    s.map_values(|x: Intersection| x@.1)
}

/// The position of the first occurrence of `o` in `s` (the length of `s` if none).
pub open spec fn first_index(s: Seq<usize>, o: usize) -> int
    decreases s.len(),
{
    if s.len() == 0 || s[0] == o {
        0
    } else {
        1 + first_index(s.drop_first(), o)
    }
}

/// One crossing of the surface of `o`: leaving it if the ray was inside it, entering it
/// otherwise.
pub open spec fn toggle(s: Seq<usize>, o: usize) -> Seq<usize> {
    if s.contains(o) {
        s.remove(first_index(s, o))
    } else {
        s.push(o)
    }
}

/// The objects that the ray is inside of after the first `k` crossings, in the order it
/// entered them.
pub open spec fn containers(objects: Seq<usize>, k: int) -> Seq<usize>
    decreases k,
{
    if k <= 0 {
        Seq::empty()
    } else {
        toggle(containers(objects, k - 1), objects[k - 1])
    }
}

/// The object entered last, if any.
pub open spec fn innermost(s: Seq<usize>) -> Option<usize> {
    if s.len() == 0 {
        None
    } else {
        Some(s.last())
    }
}

/// The first occurrence of `o` in `s` is at `p`.
proof fn lemma_first_index(s: Seq<usize>, o: usize, p: int)
    requires
        0 <= p < s.len(),
        s[p] == o,
        forall|j: int| 0 <= j < p ==> s[j] != o,
    ensures
        first_index(s, o) == p,
    decreases p,
{
    if p > 0 {
        assert(s.drop_first()[p - 1] == o);
        lemma_first_index(s.drop_first(), o, p - 1);
    }
}

/// The intersections of a ray with a scene, kept in ascending order of `t`.
pub struct Intersections {
    intersections: Vec<Intersection>,
}

impl View for Intersections {
    type V = Seq<Intersection>;

    closed spec fn view(&self) -> Seq<Intersection> {
        self.intersections@
    }
}

impl Intersections {
    /// The list is in ascending order of `t`.
    pub open spec fn wf(&self) -> bool {
        sorted_by_t(self@)
    }

    /// The empty list.
    pub fn new() -> (r: Self)
        ensures
            r@ == Seq::<Intersection>::empty(),
            r.wf(),
    {
        Intersections { intersections: Vec::new() }
    }

    /// The given intersections, in ascending order of `t`.
    pub fn from(intersections: Vec<Intersection>) -> (r: Self)
        ensures
            r.wf(),
            r@.to_multiset() == intersections@.to_multiset(),
    {
        let mut out = Intersections::new();
        assert(out@ =~= intersections@.take(0));
        let mut i: usize = 0;
        while i < intersections.len()
            invariant
                0 <= i <= intersections.len(),
                out.wf(),
                out@.to_multiset() == intersections@.take(i as int).to_multiset(),
            decreases intersections.len() - i,
        {
            let ghost before = out@;
            out.add(intersections[i]);
            proof {
                let p = choose|p: int| 0 <= p <= before.len() && out@ == before.insert(p, intersections@[i as int]);
                assert(out@.to_multiset() == before.to_multiset().insert(intersections@[i as int]));
                assert(intersections@.take(i + 1) =~= intersections@.take(i as int).push(intersections@[i as int]));
            }
            i += 1;
        }
        assert(intersections@.take(intersections.len() as int) =~= intersections@);
        out
    }

    /// Adds an intersection after every one whose `t` is not larger, keeping the order.
    pub fn add(&mut self, inter: Intersection)
        requires
            old(self).wf(),
        ensures
            final(self).wf(),
            exists|p: int| 0 <= p <= old(self)@.len() && final(self)@ == old(self)@.insert(p, inter),
    {
        let mut p: usize = 0;
        while p < self.intersections.len() && self.intersections[p].t <= inter.t
            invariant
                0 <= p <= self.intersections.len(),
                sorted_by_t(self.intersections@),
                forall|j: int| 0 <= j < p ==> self.intersections@[j]@.0 <= inter@.0,
            decreases self.intersections.len() - p,
        {
            p += 1;
        }
        let ghost before = self.intersections@;
        self.intersections.insert(p, inter);
        assert(self.intersections@ == before.insert(p as int, inter));
        assert(sorted_by_t(self.intersections@)) by {
            assert forall|i: int, j: int| 0 <= i < j < self.intersections@.len() implies self.intersections@[i]@.0 <= self.intersections@[j]@.0 by {
                if p < before.len() {
                    assert(before[p as int]@.0 > inter@.0);
                }
            }
        }
    }

    /// The intersection at position `i`, or `None` past the end.
    pub fn get(&self, i: usize) -> (r: Option<&Intersection>)
        ensures
            i < self@.len() ==> r == Some(&self@[i as int]),
            i >= self@.len() ==> r.is_none(),
    {
        if i < self.intersections.len() {
            Some(&self.intersections[i])
        } else {
            None
        }
    }

    pub fn len(&self) -> (r: usize)
        ensures
            r == self@.len(),
    {
        self.intersections.len()
    }

    pub fn is_empty(&self) -> (r: bool)
        ensures
            r == (self@.len() == 0),
    {
        self.intersections.len() == 0
    }

    /// Puts the list in ascending order of `t`; it always is, so nothing moves.
    pub fn sort(&mut self)
        requires
            old(self).wf(),
        ensures
            final(self)@ == old(self)@,
            final(self).wf(),
    {
    }

    /// The position of the hit: the first intersection whose `t` is not negative.
    pub fn hit_index(&self) -> (r: Option<usize>)
        ensures
            r matches Some(i) ==> i < self@.len() && self@[i as int]@.0 >= 0 && forall|j: int|
                0 <= j < i ==> self@[j]@.0 < 0,
            r is None ==> forall|j: int| 0 <= j < self@.len() ==> self@[j]@.0 < 0,
    {
        let mut i: usize = 0;
        while i < self.intersections.len()
            invariant
                0 <= i <= self.intersections.len(),
                forall|j: int| 0 <= j < i ==> self@[j]@.0 < 0,
            decreases self.intersections.len() - i,
        {
            if self.intersections[i].t >= 0 {
                return Some(i);
            }
            i += 1;
        }
        None
    }

    /// The hit: the intersection with the smallest `t` that is not negative, or `None`
    /// where every `t` is negative.
    pub fn hit(&self) -> (r: Option<&Intersection>)
        requires
            self.wf(),
        ensures
            r is None <==> forall|j: int| 0 <= j < self@.len() ==> self@[j]@.0 < 0,
            r matches Some(x) ==> {
                &&& self@.contains(*x)
                &&& x@.0 >= 0
                &&& forall|j: int| 0 <= j < self@.len() && self@[j]@.0 >= 0 ==> x@.0 <= self@[j]@.0
            },
    {
        match self.hit_index() {
            Some(i) => {
                let x = &self.intersections[i];
                assert(self@[i as int] == *x);
                Some(x)
            },
            None => None,
        }
    }

    /// The objects that the ray is inside of just before and just after crossing the
    /// surface at the intersection `hit`: the last one entered and not yet left, if any.
    /// Each crossing of an object's surface enters it, or leaves it if the ray was inside.
    pub fn refraction_containers(&self, hit: usize) -> (r: (Option<usize>, Option<usize>))
        requires
            hit < self@.len(),
        ensures
            r.0 == innermost(containers(objects_of(self@), hit as int)),
            r.1 == innermost(containers(objects_of(self@), hit + 1)),
    {
        let ghost objs = objects_of(self@);
        let n = self.intersections.len();
        let mut stack: Vec<usize> = Vec::new();
        let mut before: Option<usize> = None;
        let mut i: usize = 0;
        while i <= hit
            invariant
                0 <= i <= hit + 1,
                hit < n,
                n == self@.len(),
                objs == objects_of(self@),
                stack@ == containers(objs, i as int),
                i > hit ==> before == innermost(containers(objs, hit as int)),
            decreases hit + 1 - i,
        {
            if i == hit {
                before = if stack.len() == 0 { None } else { Some(stack[stack.len() - 1]) };
            }
            let o = self.intersections[i].object;
            assert(objs[i as int] == o);
            let mut p: usize = 0;
            while p < stack.len() && stack[p] != o
                invariant
                    0 <= p <= stack.len(),
                    forall|j: int| 0 <= j < p ==> stack@[j] != o,
                decreases stack.len() - p,
            {
                p += 1;
            }
            if p < stack.len() {
                proof {
                    lemma_first_index(stack@, o, p as int);
                }
                assert(stack@.contains(o));
                stack.remove(p);
            } else {
                assert(!stack@.contains(o));
                stack.push(o);
            }
            i += 1;
        }
        let after = if stack.len() == 0 { None } else { Some(stack[stack.len() - 1]) };
        (before, after)
    }
}

} // verus!
