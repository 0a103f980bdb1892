//! What the objects of a scope have to look like, and how a scope grows.

use vstd::prelude::*;
use crate::arena::LocalFrame;
use crate::error::JniError;
use crate::foreign::{ForeignObject, ForeignObjectView};
use crate::mac_address::{is_native_bytes, MacAddress};

verus! {

/// What one object of a scope is to hold.
pub enum Shape {
    /// Exactly these contents.
    Exactly(ForeignObjectView),
    /// The bytes of this address, in the byte order of the machine.
    Address(MacAddress),
}

/// Whether `object` is what `shape` asks for.
pub open spec fn fits(object: ForeignObjectView, shape: Shape) -> bool {
    match shape {
        Shape::Exactly(contents) => object == contents,
        Shape::Address(address) => object is ByteArray && is_native_bytes(
            object->ByteArray_0,
            address.value(),
            address.width(),
        ),
    }
}

/// Whether `objects` are, one by one, what `shapes` ask for.
pub open spec fn fit_all(objects: Seq<ForeignObjectView>, shapes: Seq<Shape>) -> bool {
    &&& objects.len() == shapes.len()
    &&& forall|k: int| 0 <= k < shapes.len() ==> fits(#[trigger] objects[k], shapes[k])
}

/// The objects that finding the class `name` allocates at position `base` of
/// a scope, given the keys the class cache holds: none for a class that is
/// cached, else the name and the class found under it.
pub open spec fn class_shapes(keys: Seq<Seq<char>>, name: Seq<char>, base: nat) -> Seq<Shape> {
    if keys.contains(name) {
        Seq::empty()
    } else {
        seq![
            Shape::Exactly(ForeignObjectView::Text(name)),
            Shape::Exactly(
                ForeignObjectView::LoadedClass { slot: keys.len() as usize, name: base as usize },
            ),
        ]
    }
}

/// `post` is `pre` with nothing taken away: the same capacity, the same
/// calls, and the objects of `pre` where they were.
pub open spec fn keeps(pre: &LocalFrame, post: &LocalFrame) -> bool {
    &&& post.capacity() == pre.capacity()
    &&& post.calls() == pre.calls()
    &&& post.objects().len() >= pre.objects().len()
    &&& post.objects().take(pre.objects().len() as int) == pre.objects()
}

/// `post` is `pre` with objects of the given shapes allocated after its own,
/// and nothing else.
pub open spec fn grows_by(pre: &LocalFrame, post: &LocalFrame, shapes: Seq<Shape>) -> bool {
    &&& keeps(pre, post)
    &&& fit_all(post.objects().skip(pre.objects().len() as int), shapes)
}

/// What an attempt to allocate objects of the given shapes makes of `pre`:
/// all of them where the scope has the room, else a failure that leaves what
/// `pre` held.
pub open spec fn allots(pre: &LocalFrame, post: &LocalFrame, done: bool, shapes: Seq<Shape>) -> bool {
    if shapes.len() <= pre.room() {
        done && grows_by(pre, post, shapes)
    } else {
        !done && keeps(pre, post)
    }
}

/// Two attempts in a row are one attempt at both lists of shapes.
pub proof fn lemma_allots_chain(
    pre: &LocalFrame,
    mid: &LocalFrame,
    post: &LocalFrame,
    first_done: bool,
    first: Seq<Shape>,
    second_done: bool,
    second: Seq<Shape>,
)
    requires
        pre.wf(),
        allots(pre, mid, first_done, first),
        first_done ==> allots(mid, post, second_done, second),
    ensures
        first_done ==> allots(pre, post, second_done, first + second),
        !first_done ==> allots(pre, mid, false, first + second),
{
    if first_done {
        let a = pre.objects().len() as int;
        let b = mid.objects().len() as int;
        assert(mid.objects().skip(a).len() == first.len());
        assert(b == a + first.len());
        assert(post.objects().take(a) =~= post.objects().take(b).take(a));
        if second_done {
            assert(second.len() <= mid.room());
            let tail = post.objects().skip(a);
            assert(post.objects().skip(b).len() == second.len());
            assert forall|k: int| 0 <= k < (first + second).len() implies fits(
                #[trigger] tail[k],
                (first + second)[k],
            ) by {
                if k < first.len() {
                    assert(post.objects().take(b)[a + k] == mid.objects()[a + k]);
                    assert(tail[k] == mid.objects().skip(a)[k]);
                } else {
                    assert(tail[k] == post.objects().skip(b)[k - first.len()]);
                }
            }
        }
    }
}

/// An attempt at no shapes at all succeeds and changes nothing.
pub proof fn lemma_allots_nothing(pre: &LocalFrame)
    requires
        pre.wf(),
    ensures
        allots(pre, pre, true, Seq::<Shape>::empty()),
{
    assert(pre.objects().take(pre.objects().len() as int) =~= pre.objects());
}

/// Allocates `object` in `env`, or fails where `env` is full.
pub fn put(env: &mut LocalFrame, object: ForeignObject) -> (r: Result<usize, JniError>)
    requires
        old(env).wf(),
    ensures
        final(env).wf(),
        allots(old(env), final(env), r is Ok, seq![Shape::Exactly(object@)]),
        r is Ok ==> r->Ok_0 == old(env).objects().len(),
        r is Err ==> r->Err_0 == JniError::CapacityExceeded,
{
    let r = env.allocate(object);
    proof {
        let a = old(env).objects().len() as int;
        assert(env.objects().take(a) =~= old(env).objects());
        if r is Ok {
            assert(env.objects().skip(a)[0] == object@);
        }
    }
    r
}

/// Allocates the bytes of `address` in `env`, in the byte order of the
/// machine, or fails where `env` is full.
pub fn put_address(env: &mut LocalFrame, address: MacAddress) -> (r: Result<usize, JniError>)
    requires
        old(env).wf(),
    ensures
        final(env).wf(),
        allots(old(env), final(env), r is Ok, seq![Shape::Address(address)]),
        r is Ok ==> r->Ok_0 == old(env).objects().len(),
        r is Err ==> r->Err_0 == JniError::CapacityExceeded,
{
    let bytes = address.into_ne_bytes();
    let r = env.allocate(ForeignObject::ByteArray(bytes));
    proof {
        let a = old(env).objects().len() as int;
        assert(env.objects().take(a) =~= old(env).objects());
        if r is Ok {
            assert(env.objects().skip(a)[0] == ForeignObjectView::ByteArray(bytes@));
        }
    }
    r
}

/// Allocates `object` behind the objects of the shapes `sofar`, which `env`
/// has taken since it was `origin`.
pub(crate) fn put_next(
    env: &mut LocalFrame,
    object: ForeignObject,
    Ghost(origin): Ghost<LocalFrame>,
    Ghost(sofar): Ghost<Seq<Shape>>,
) -> (r: Result<usize, JniError>)
    requires
        old(env).wf(),
        origin.wf(),
        allots(&origin, old(env), true, sofar),
    ensures
        final(env).wf(),
        allots(&origin, final(env), r is Ok, sofar.push(Shape::Exactly(object@))),
        r is Ok ==> r->Ok_0 == old(env).objects().len() && r->Ok_0 == origin.objects().len()
            + sofar.len(),
        r is Err ==> r->Err_0 == JniError::CapacityExceeded,
{
    let ghost before = *env;
    let r = put(env, object);
    proof {
        lemma_allots_chain(
            &origin,
            &before,
            env,
            true,
            sofar,
            r is Ok,
            seq![Shape::Exactly(object@)],
        );
        assert(sofar + seq![Shape::Exactly(object@)] =~= sofar.push(Shape::Exactly(object@)));
        assert(before.objects().skip(origin.objects().len() as int).len() == sofar.len());
    }
    r
}

/// Allocates the bytes of `address` behind the objects of the shapes `sofar`,
/// which `env` has taken since it was `origin`.
pub(crate) fn put_address_next(
    env: &mut LocalFrame,
    address: MacAddress,
    Ghost(origin): Ghost<LocalFrame>,
    Ghost(sofar): Ghost<Seq<Shape>>,
) -> (r: Result<usize, JniError>)
    requires
        old(env).wf(),
        origin.wf(),
        allots(&origin, old(env), true, sofar),
    ensures
        final(env).wf(),
        allots(&origin, final(env), r is Ok, sofar.push(Shape::Address(address))),
        r is Ok ==> r->Ok_0 == old(env).objects().len() && r->Ok_0 == origin.objects().len()
            + sofar.len(),
        r is Err ==> r->Err_0 == JniError::CapacityExceeded,
{
    let ghost before = *env;
    let r = put_address(env, address);
    proof {
        lemma_allots_chain(
            &origin,
            &before,
            env,
            true,
            sofar,
            r is Ok,
            seq![Shape::Address(address)],
        );
        assert(sofar + seq![Shape::Address(address)] =~= sofar.push(Shape::Address(address)));
        assert(before.objects().skip(origin.objects().len() as int).len() == sofar.len());
    }
    r
}

} // verus!
