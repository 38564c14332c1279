use vstd::prelude::*;

verus! {

/// One level of a class hierarchy: the identity of a registered class (the
/// address of its native class) and the function that turns a pointer to an
/// instance of this class into a pointer to the part of it that is an instance
/// of the parent class.
#[derive(Clone, Copy, Debug)]
pub struct MetaClass<U> {
    pub class: usize,
    pub upcast: U,
}

impl<U> MetaClass<U> {
    /// A level for the class `class`, reached from the level below through `upcast`.
    pub fn new(class: usize, upcast: U) -> (r: Self)
        ensures
            r.class == class,
            r.upcast == upcast,
    {
        MetaClass { class, upcast }
    }
}

/// The native side of an instance: the wrapped Rust value and the hierarchy of
/// the class it was constructed for, root class first.
pub struct Instance<P, U> {
    pub wrapped: P,
    pub class_list: Vec<MetaClass<U>>,
}

/// The number of upcasts that lead from the most derived class of `list` (its
/// last entry) to the class `target`, walking the list from the end; `None` when
/// `target` is not in the list.
pub open spec fn upcast_steps<U>(list: Seq<MetaClass<U>>, target: usize) -> Option<nat>
    decreases list.len(),
{
    if list.len() == 0 {
        None
    } else if list.last().class == target {
        Some(0)
    } else {
        add_steps(upcast_steps(list.drop_last(), target), 1)
    }
}

/// `steps` with `k` more steps, when there are any.
pub open spec fn add_steps(steps: Option<nat>, k: nat) -> Option<nat> {
    match steps {
        Some(n) => Some(n + k),
        None => None,
    }
}

/// `chain` starts at `start`, and each next element is a possible result of
/// the upcast of the next level of `list`, taken from the last level backwards.
pub open spec fn is_upcast_chain<P, U: Fn(P) -> P>(
    list: Seq<MetaClass<U>>,
    start: P,
    chain: Seq<P>,
) -> bool {
    &&& 1 <= chain.len() <= list.len() + 1
    &&& chain[0] == start
    &&& forall|j: int|
        #![trigger chain[j + 1]]
        0 <= j < chain.len() - 1 ==> call_ensures(
            list[list.len() - 1 - j].upcast,
            (chain[j],),
            chain[j + 1],
        )
}

/// Every upcast of `list` accepts every pointer.
pub open spec fn upcasts_total<P, U: Fn(P) -> P>(list: Seq<MetaClass<U>>) -> bool {
    forall|i: int, p: P| 0 <= i < list.len() ==> #[trigger] call_requires(list[i].upcast, (p,))
}

/// The hierarchy of a class registered without a parent: the class alone,
/// reached through `upcast` (the identity, for a root class).
pub fn root_class_list<U>(class: usize, upcast: U) -> (r: Vec<MetaClass<U>>)
    ensures
        r@ == seq![MetaClass { class, upcast }],
{
    let mut list: Vec<MetaClass<U>> = Vec::new();
    list.push(MetaClass::new(class, upcast));
    list
}

/// The hierarchy of a class registered as a subclass: the parent's hierarchy
/// followed by the new class, reached from its parent through `upcast`.
pub fn subclass_class_list<U: Copy>(parent: &Vec<MetaClass<U>>, class: usize, upcast: U) -> (r: Vec<
    MetaClass<U>,
>)
    ensures
        r@ == parent@.push(MetaClass { class, upcast }),
{
    let mut list = copy_class_list(parent);
    list.push(MetaClass::new(class, upcast));
    list
}

/// A copy of a class hierarchy.
fn copy_class_list<U: Copy>(list: &Vec<MetaClass<U>>) -> (r: Vec<MetaClass<U>>)
    ensures
        r@ == list@,
{
    let mut copy: Vec<MetaClass<U>> = Vec::new();
    let mut i: usize = 0;
    while i < list.len()
        invariant
            i <= list.len(),
            copy@ == list@.take(i as int),
        decreases list.len() - i,
    {
        let m = list[i];
        copy.push(m);
        i = i + 1;
        assert(copy@ =~= list@.take(i as int));
    }
    assert(list@.take(list.len() as int) =~= list@);
    copy
}

impl<P, U: Copy> Instance<P, U> {
    /// The instance that a constructor of a class with hierarchy `class_list`
    /// makes around the value `wrapped`; it keeps its own copy of the hierarchy.
    pub fn new(wrapped: P, class_list: &Vec<MetaClass<U>>) -> (r: Self)
        ensures
            r.wrapped == wrapped,
            r.class_list@ == class_list@,
    {
        Instance { wrapped, class_list: copy_class_list(class_list) }
    }
}

/// The pointer to the part of `this` that is an instance of the class `target`:
/// starting from the wrapped value, the upcasts of the hierarchy are applied from
/// the most derived class backwards until `target` is reached. `None` when
/// `target` is not in the instance's hierarchy.
pub fn unwrap<P: Copy, U: Fn(P) -> P + Copy>(this: &Instance<P, U>, target: usize) -> (r: Option<P>)
    requires
        upcasts_total(this.class_list@),
    ensures
        r is None <==> upcast_steps(this.class_list@, target) is None,
        upcast_steps(this.class_list@, target) == Some(0nat) ==> r == Some(this.wrapped),
        r matches Some(p) ==> exists|chain: Seq<P>|
            {
                &&& is_upcast_chain(this.class_list@, this.wrapped, chain)
                &&& upcast_steps(this.class_list@, target) == Some((chain.len() - 1) as nat)
                &&& p == chain.last()
            },
{
    let ghost list = this.class_list@;
    let n = this.class_list.len();
    let mut result: P = this.wrapped;
    let ghost mut chain: Seq<P> = seq![this.wrapped];
    let mut i: usize = n;
    assert(list.take(n as int) =~= list);
    while i > 0
        invariant
            list == this.class_list@,
            n == list.len(),
            upcasts_total(list),
            i <= n,
            chain.len() == n - i + 1,
            is_upcast_chain(list, this.wrapped, chain),
            result == chain.last(),
            upcast_steps(list, target) == add_steps(
                upcast_steps(list.take(i as int), target),
                (n - i) as nat,
            ),
        decreases i,
    {
        i = i - 1;
        let ghost prefix = list.take(i as int + 1);
        assert(prefix.drop_last() =~= list.take(i as int));
        assert(prefix.last() == list[i as int]);
        if this.class_list[i].class == target {
            assert(upcast_steps(list, target) == Some((chain.len() - 1) as nat));
            return Some(result);
        }
        let next = (this.class_list[i].upcast)(result);
        proof {
            let old_chain = chain;
            chain = chain.push(next);
            assert forall|j: int| 0 <= j < chain.len() - 1 implies call_ensures(
                list[list.len() - 1 - j].upcast,
                (chain[j],),
                #[trigger] chain[j + 1],
            ) by {
                if j < old_chain.len() - 1 {
                    assert(chain[j] == old_chain[j]);
                    assert(chain[j + 1] == old_chain[j + 1]);
                }
            }
        }
        result = next;
    }
    assert(list.take(0) =~= Seq::<MetaClass<U>>::empty());
    None
}

/// A class registered without a parent is found in its own hierarchy with no upcast.
pub proof fn law_root_class_found_without_upcast<U>(class: usize, upcast: U)
    ensures
        upcast_steps(seq![MetaClass { class, upcast }], class) == Some(0nat),
{
}

/// A class registered as a subclass is found in its own hierarchy with no upcast.
pub proof fn law_subclass_found_without_upcast<U>(
    parent: Seq<MetaClass<U>>,
    class: usize,
    upcast: U,
)
    ensures
        upcast_steps(parent.push(MetaClass { class, upcast }), class) == Some(0nat),
{
}

/// Every other class of a subclass's hierarchy takes exactly one upcast more
/// than from the parent, and a class missing from the parent's hierarchy stays
/// missing.
pub proof fn law_subclass_adds_one_upcast<U>(
    parent: Seq<MetaClass<U>>,
    class: usize,
    upcast: U,
    target: usize,
)
    requires
        target != class,
    ensures
        upcast_steps(parent.push(MetaClass { class, upcast }), target) == add_steps(
            upcast_steps(parent, target),
            1,
        ),
{
    assert(parent.push(MetaClass { class, upcast }).drop_last() =~= parent);
}

/// A class is missing from a hierarchy exactly when no level of it names the class.
pub proof fn law_absent_class<U>(list: Seq<MetaClass<U>>, target: usize)
    ensures
        upcast_steps(list, target) is None <==> forall|i: int|
            0 <= i < list.len() ==> #[trigger] list[i].class != target,
    decreases list.len(),
{
    if list.len() > 0 {
        law_absent_class(list.drop_last(), target);
        if list.last().class != target {
            assert forall|i: int| 0 <= i < list.len() - 1 implies #[trigger] list[i].class
                == list.drop_last()[i].class by {}
        }
    }
}

/// In a hierarchy whose levels name distinct classes, the class of level `i`
/// is reached from the most derived class after one upcast per level above it.
pub proof fn law_depth_of_level<U>(list: Seq<MetaClass<U>>, i: int)
    requires
        0 <= i < list.len(),
        forall|j: int, k: int|
            0 <= j < list.len() && 0 <= k < list.len() && j != k ==> #[trigger] list[j].class
                != #[trigger] list[k].class,
    ensures
        upcast_steps(list, list[i].class) == Some((list.len() - 1 - i) as nat),
    decreases list.len(),
{
    if i < list.len() - 1 {
        let prefix = list.drop_last();
        assert(prefix[i] == list[i]);
        assert forall|j: int, k: int|
            0 <= j < prefix.len() && 0 <= k < prefix.len() && j != k implies #[trigger] prefix[j].class
                != #[trigger] prefix[k].class by {
            assert(prefix[j] == list[j]);
            assert(prefix[k] == list[k]);
        }
        law_depth_of_level(prefix, i);
        assert(list.last() == list[list.len() - 1]);
    }
}

} // verus!
